use vstd::prelude::*;
use vstd::string::*;

verus! {

/// The I/O error type of std, carried through as it is.
#[verifier::external_type_specification]
#[verifier::external_body]
pub struct ExIoError(std::io::Error);

/// The errors of the library, one variant per subsystem; each holds a message.
#[derive(Debug)]
pub enum AppError {
    Capture(String),
    Encode(String),
    Network(String),
    Input(String),
    Connection(String),
    Signaling(String),
    Io(std::io::Error),
}

/// `Display` of `std::io::Error`: its message. Nothing is stated of it.
#[verifier::external_body]
fn io_error_text(e: &std::io::Error) -> (r: String) {
    e.to_string()
}

/// The text of an error: a subsystem label, a colon and the message.
pub open spec fn error_text(label: Seq<char>, msg: Seq<char>) -> Seq<char> {
    label + ": "@ + msg
}

fn labelled(label: &str, msg: &str) -> (r: String)
    ensures
        r@ == error_text(label@, msg@),
{
    let mut s = String::from_str(label);
    s.append(": ");
    s.append(msg);
    s
}

/// The text of an error other than an I/O error.
pub open spec fn message_text(e: AppError) -> Seq<char> {
    match e {
        AppError::Capture(m) => error_text("Capture error"@, m@),
        AppError::Encode(m) => error_text("Encoding error"@, m@),
        AppError::Network(m) => error_text("Network error"@, m@),
        AppError::Input(m) => error_text("Input error"@, m@),
        AppError::Connection(m) => error_text("Connection error"@, m@),
        AppError::Signaling(m) => error_text("Signaling error"@, m@),
        AppError::Io(_) => Seq::empty(),
    }
}

impl AppError {
    /// The message of the error, led by its subsystem (for example
    /// `"Capture error: No displays found"`).
    pub fn to_string(&self) -> (r: String)
        ensures
            !((*self) is Io) ==> r@ == message_text(*self),
            (*self) is Io ==> r@.len() >= "IO error: "@.len() && r@.subrange(0, "IO error: "@.len() as int)
                == "IO error: "@,
    {
        match self {
            AppError::Capture(m) => labelled("Capture error", m.as_str()),
            AppError::Encode(m) => labelled("Encoding error", m.as_str()),
            AppError::Network(m) => labelled("Network error", m.as_str()),
            AppError::Input(m) => labelled("Input error", m.as_str()),
            AppError::Connection(m) => labelled("Connection error", m.as_str()),
            AppError::Signaling(m) => labelled("Signaling error", m.as_str()),
            AppError::Io(e) => {
                let text = io_error_text(e);
                let r = labelled("IO error", text.as_str());
                proof {
                    reveal_strlit("IO error");
                    reveal_strlit(": ");
                    reveal_strlit("IO error: ");
                }
                assert(r@.subrange(0, "IO error: "@.len() as int) =~= "IO error: "@);
                r
            },
        }
    }
}

/// Whether `e` is a capture error with message `msg`.
pub open spec fn is_capture_error(e: AppError, msg: Seq<char>) -> bool {
    e matches AppError::Capture(m) && m@ == msg
}

/// Whether `e` is an encoding error with message `msg`.
pub open spec fn is_encode_error(e: AppError, msg: Seq<char>) -> bool {
    e matches AppError::Encode(m) && m@ == msg
}

/// Whether `e` is a connection error with message `msg`.
pub open spec fn is_connection_error(e: AppError, msg: Seq<char>) -> bool {
    e matches AppError::Connection(m) && m@ == msg
}

} // verus!
