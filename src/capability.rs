use vstd::prelude::*;

verus! {

/// One of the fixed set of mediated operations a component may be granted.
#[derive(Clone, Copy, Debug, PartialEq, Eq, Structural)]
pub enum Capability {
    FilesystemRead,
    FilesystemWrite,
    Network,
}

/// The four host operations of the capability interface.
#[derive(Clone, Copy, Debug, PartialEq, Eq, Structural)]
pub enum Operation {
    ReadFile,
    WriteFile,
    HttpGet,
    HttpPost,
}

pub open spec fn spec_capability_of(op: Operation) -> Capability {
    match op {
        Operation::ReadFile => Capability::FilesystemRead,
        Operation::WriteFile => Capability::FilesystemWrite,
        Operation::HttpGet => Capability::Network,
        Operation::HttpPost => Capability::Network,
    }
}

impl Operation {
    /// The capability that guards this operation.
    pub fn capability(&self) -> (r: Capability)
        ensures
            r == spec_capability_of(*self),
    {
        match self {
            Operation::ReadFile => Capability::FilesystemRead,
            Operation::WriteFile => Capability::FilesystemWrite,
            Operation::HttpGet => Capability::Network,
            Operation::HttpPost => Capability::Network,
        }
    }
}

/// The mathematical value of a request.
pub enum RequestView {
    ReadFile { path: Seq<char> },
    WriteFile { path: Seq<char>, content: Seq<char> },
    HttpGet { url: Seq<char> },
    HttpPost { url: Seq<char>, body: Seq<char> },
}

/// The length in bytes of the UTF-8 encoding of `s`, as `str::len` gives it.
pub open spec fn spec_byte_len(s: Seq<char>) -> usize {
    vstd::utf8::encode_utf8(s).len() as usize
}

/// The text a granted call hands back when its operation fails with `cause`:
/// it names the operation and its target, so it never reads as a denial.
pub open spec fn spec_failure_text(req: RequestView, cause: Seq<char>) -> Seq<char> {
    match req {
        RequestView::ReadFile { path } => "Failed to read file '"@ + path + "': "@ + cause,
        RequestView::WriteFile { path, .. } => "Failed to write file '"@ + path + "': "@ + cause,
        RequestView::HttpGet { url } => "HTTP GET to '"@ + url + "' failed: "@ + cause,
        RequestView::HttpPost { url, .. } => "HTTP POST to '"@ + url + "' failed: "@ + cause,
    }
}

impl RequestView {
    /// The size of the data a request sends, where it sends any: what an
    /// audit record reports of a written file's content or a posted body.
    pub open spec fn payload_bytes(self) -> Option<usize> {
        match self {
            RequestView::WriteFile { content, .. } => Some(spec_byte_len(content)),
            RequestView::HttpPost { body, .. } => Some(spec_byte_len(body)),
            _ => None,
        }
    }

    pub open spec fn operation(self) -> Operation {
        match self {
            RequestView::ReadFile { .. } => Operation::ReadFile,
            RequestView::WriteFile { .. } => Operation::WriteFile,
            RequestView::HttpGet { .. } => Operation::HttpGet,
            RequestView::HttpPost { .. } => Operation::HttpPost,
        }
    }

    pub open spec fn capability(self) -> Capability {
        spec_capability_of(self.operation())
    }

    /// The path or URL that the request targets: what an audit record
    /// names as its argument.
    pub open spec fn target(self) -> Seq<char> {
        match self {
            RequestView::ReadFile { path } => path,
            RequestView::WriteFile { path, .. } => path,
            RequestView::HttpGet { url } => url,
            RequestView::HttpPost { url, .. } => url,
        }
    }
}

/// A call that a component makes across the capability boundary, with its
/// arguments exactly as the component passed them.
#[derive(Clone, Debug)]
pub enum Request {
    ReadFile { path: String },
    WriteFile { path: String, content: String },
    HttpGet { url: String },
    HttpPost { url: String, body: String },
}

impl View for Request {
    type V = RequestView;

    open spec fn view(&self) -> RequestView {
        match self {
            Request::ReadFile { path } => RequestView::ReadFile { path: path@ },
            Request::WriteFile { path, content } => RequestView::WriteFile {
                path: path@,
                content: content@,
            },
            Request::HttpGet { url } => RequestView::HttpGet { url: url@ },
            Request::HttpPost { url, body } => RequestView::HttpPost { url: url@, body: body@ },
        }
    }
}

impl Request {
    pub fn operation(&self) -> (r: Operation)
        ensures
            r == self@.operation(),
    {
        match self {
            Request::ReadFile { .. } => Operation::ReadFile,
            Request::WriteFile { .. } => Operation::WriteFile,
            Request::HttpGet { .. } => Operation::HttpGet,
            Request::HttpPost { .. } => Operation::HttpPost,
        }
    }

    pub fn capability(&self) -> (r: Capability)
        ensures
            r == self@.capability(),
    {
        self.operation().capability()
    }

    pub fn target(&self) -> (r: String)
        ensures
            r@ == self@.target(),
    {
        match self {
            Request::ReadFile { path } => path.clone(),
            Request::WriteFile { path, .. } => path.clone(),
            Request::HttpGet { url } => url.clone(),
            Request::HttpPost { url, .. } => url.clone(),
        }
    }

    pub fn payload_bytes(&self) -> (r: Option<usize>)
        ensures
            r == self@.payload_bytes(),
    {
        match self {
            Request::WriteFile { content, .. } => Some(content.as_str().len()),
            Request::HttpPost { body, .. } => Some(body.as_str().len()),
            _ => None,
        }
    }

    /// The failure text for this request, given what the operation reported.
    pub fn failure_text(&self, cause: &str) -> (r: String)
        ensures
            r@ == spec_failure_text(self@, cause@),
    {
        let (mut s, target, tail) = match self {
            Request::ReadFile { path } => ("Failed to read file '".to_owned(), path, "': "),
            Request::WriteFile { path, .. } => ("Failed to write file '".to_owned(), path, "': "),
            Request::HttpGet { url } => ("HTTP GET to '".to_owned(), url, "' failed: "),
            Request::HttpPost { url, .. } => ("HTTP POST to '".to_owned(), url, "' failed: "),
        };
        s.append(target.as_str());
        s.append(tail);
        s.append(cause);
        s
    }

    /// A copy carrying the same arguments.
    pub fn duplicate(&self) -> (r: Request)
        ensures
            r@ == self@,
    {
        match self {
            Request::ReadFile { path } => Request::ReadFile { path: path.clone() },
            Request::WriteFile { path, content } => Request::WriteFile {
                path: path.clone(),
                content: content.clone(),
            },
            Request::HttpGet { url } => Request::HttpGet { url: url.clone() },
            Request::HttpPost { url, body } => Request::HttpPost {
                url: url.clone(),
                body: body.clone(),
            },
        }
    }
}

} // verus!
