//! The fixed payloads and wire constants of the server: the landing-page
//! document, the health-check body, the content-type labels, and the bind
//! address. All of them are compile-time constants; responses never vary
//! across requests or time.

use vstd::prelude::*;
use vstd::string::StringExecFns;

verus! {

/// The landing-page document returned for `GET /`.
pub const LANDING_PAGE: &'static str = r#"
<!DOCTYPE html>
<html>
<head>
    <meta charset="UTF-8">
    <meta name="viewport" content="width=device-width, initial-scale=1.0">
    <title>Rust + Nix Demo</title>
    <style>
        body {
            font-family: -apple-system, BlinkMacSystemFont, 'Segoe UI', sans-serif;
            max-width: 800px;
            margin: 80px auto;
            padding: 0 20px;
            line-height: 1.6;
            color: #333;
        }
        h1 { color: #2c3e50; }
        .badge {
            display: inline-block;
            padding: 4px 12px;
            margin: 4px;
            background: #e3f2fd;
            border-radius: 4px;
            font-size: 14px;
        }
        .tech-stack { margin: 30px 0; }
        code {
            background: #f5f5f5;
            padding: 2px 6px;
            border-radius: 3px;
            font-family: 'Courier New', monospace;
        }
    </style>
</head>
<body>
    <h1>🦀 Rust + Nix Demo</h1>
    <p>This web service demonstrates reproducible builds and deployment using Nix flakes.</p>
    
    <div class="tech-stack">
        <h2>Tech Stack</h2>
        <span class="badge">Rust 1.91</span>
        <span class="badge">Axum Web Framework</span>
        <span class="badge">Nix Flakes</span>
        <span class="badge">AWS EC2</span>
    </div>
    
    <h2>What This Demonstrates</h2>
    <ul>
        <li>Reproducible builds with Nix flakes</li>
        <li>Same binary builds locally and on EC2</li>
        <li>Zero-dependency deployment</li>
        <li>Fast iteration with <code>nix develop</code></li>
    </ul>
    
    <h2>Deployment</h2>
    <p>Built on openSUSE Tumbleweed, deployed to Ubuntu 22.04 on AWS EC2 using <code>nix copy</code>.</p>
    
    <hr style="margin: 40px 0; border: none; border-top: 1px solid #ddd;">
    <p style="color: #666; font-size: 14px;">
        Source: <a href="https://codeberg.org/querret/rust-nix-demo">codeberg.org/querret/rust-nix-demo</a>
    </p>
</body>
</html>
    "#;

/// The body returned for `GET /health`.
pub const HEALTH_BODY: &'static str = "OK";

/// The address and port the server binds to.
pub const BIND_ADDRESS: &'static str = "0.0.0.0:3000";

/// The label of each content type that a response can carry.
#[derive(Clone, Copy, Debug, PartialEq, Eq, Structural)]
pub enum ContentType {
    Html,
    Plain,
}

/// The wire name of a content type, as it appears in a `Content-Type` header.
pub fn content_type_name(ct: ContentType) -> (r: &'static str)
    ensures
        ct == ContentType::Html ==> r@ == "text/html"@,
        ct == ContentType::Plain ==> r@ == "text/plain"@,
{
    match ct {
        ContentType::Html => "text/html",
        ContentType::Plain => "text/plain",
    }
}

/// The diagnostic line printed once the listener is ready, for a given bind
/// address.
pub fn startup_message(address: &str) -> (r: String)
    ensures
        r@ == "Server running on http://"@ + address@,
{
    let prefix = String::from_str("Server running on http://");
    prefix.concat(address)
}

} // verus!
