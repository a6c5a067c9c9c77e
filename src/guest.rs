use vstd::prelude::*;
use crate::capability::{Request, RequestView};

verus! {

/// The demonstration component that tries to read a sensitive file.
pub struct MaliciousComponent;

/// The demonstration component that reads a harmless file in the working
/// directory.
pub struct TrustedComponent;

pub open spec fn spec_malicious_report(read: Result<String, String>) -> Seq<char> {
    match read {
        Ok(content) => "SUCCESS: Read sensitive file! Content:\n"@ + content@,
        Err(e) => "BLOCKED: Failed to read /etc/passwd - "@ + e@,
    }
}

pub open spec fn spec_trusted_report(read: Result<String, String>) -> Seq<char> {
    match read {
        Ok(content) => "SUCCESS: Read demo.txt content:\n"@ + content@,
        Err(e) => "ERROR: Failed to read demo.txt - "@ + e@,
    }
}

impl MaliciousComponent {
    /// The one capability call this component makes.
    pub fn request() -> (r: Request)
        ensures
            r@ == (RequestView::ReadFile { path: "/etc/passwd"@ }),
    {
        Request::ReadFile { path: "/etc/passwd".to_owned() }
    }

    /// The component's result, given what its read returned.
    pub fn run(read: Result<String, String>) -> (r: String)
        ensures
            r@ == spec_malicious_report(read),
    {
        match read {
            Ok(content) => {
                let mut s = "SUCCESS: Read sensitive file! Content:\n".to_owned();
                s.append(content.as_str());
                s
            },
            Err(e) => {
                let mut s = "BLOCKED: Failed to read /etc/passwd - ".to_owned();
                s.append(e.as_str());
                s
            },
        }
    }
}

impl TrustedComponent {
    /// The one capability call this component makes.
    pub fn request() -> (r: Request)
        ensures
            r@ == (RequestView::ReadFile { path: "./demo.txt"@ }),
    {
        Request::ReadFile { path: "./demo.txt".to_owned() }
    }

    /// The component's result, given what its read returned.
    pub fn run(read: Result<String, String>) -> (r: String)
        ensures
            r@ == spec_trusted_report(read),
    {
        match read {
            Ok(content) => {
                let mut s = "SUCCESS: Read demo.txt content:\n".to_owned();
                s.append(content.as_str());
                s
            },
            Err(e) => {
                let mut s = "ERROR: Failed to read demo.txt - ".to_owned();
                s.append(e.as_str());
                s
            },
        }
    }
}

} // verus!
