use vstd::prelude::*;

use crate::text::{push_char, starts_with};

verus! {

pub const STATUS_NOT_FOUND: u16 = 404;

pub const STATUS_INTERNAL: u16 = 500;

/// A failure that ends the process: a message and an exit code.
pub struct CliError {
    pub msg: String,
    pub code: i32,
}

impl CliError {
    pub fn new(msg: String, code: i32) -> (r: Self)
        ensures
            r.msg@ == msg@,
            r.code == code,
    {
        CliError { msg, code }
    }
}

/// A failure reported to an HTTP client: a message and a response status.
pub struct HttpError {
    pub msg: String,
    pub status: u16,
}

impl HttpError {
    pub fn not_found(msg: String) -> (r: Self)
        ensures
            r.msg@ == msg@,
            r.status == STATUS_NOT_FOUND,
    {
        HttpError { msg, status: STATUS_NOT_FOUND }
    }

    pub fn internal(msg: String) -> (r: Self)
        ensures
            r.msg@ == msg@,
            r.status == STATUS_INTERNAL,
    {
        HttpError { msg, status: STATUS_INTERNAL }
    }
}

/// The kind of a failed I/O operation.
#[derive(Clone, Copy, PartialEq, Eq, Structural)]
pub enum IoKind {
    NotFound,
    PermissionDenied,
    ConnectionRefused,
    ConnectionReset,
    ConnectionAborted,
    NotConnected,
    AddrInUse,
    AddrNotAvailable,
    BrokenPipe,
    AlreadyExists,
    WouldBlock,
    InvalidInput,
    InvalidData,
    TimedOut,
    WriteZero,
    Interrupted,
    UnexpectedEof,
    Other,
}

/// A failed I/O operation: its kind, the operating system's error code when
/// the failure came from the OS, and the failure's own text.
pub struct IoFailure {
    pub kind: IoKind,
    pub os_code: Option<i32>,
    pub text: String,
}

/// The fixed wording for failures the OS reports, by kind; none for a kind
/// that keeps the OS's own text.
pub open spec fn kind_text(k: IoKind) -> Option<Seq<char>> {
    match k {
        IoKind::NotFound => Some("No such file or directory"@),
        IoKind::PermissionDenied => Some("Permission denied"@),
        IoKind::ConnectionRefused => Some("Connection refused"@),
        IoKind::ConnectionReset => Some("Connection reset"@),
        IoKind::ConnectionAborted => Some("Connection aborted"@),
        IoKind::NotConnected => Some("Not connected"@),
        IoKind::AddrInUse => Some("Address in use"@),
        IoKind::AddrNotAvailable => Some("Address not available"@),
        IoKind::BrokenPipe => Some("Broken pipe"@),
        IoKind::AlreadyExists => Some("Already exists"@),
        IoKind::WouldBlock => Some("Would block"@),
        IoKind::InvalidInput => Some("Invalid input"@),
        IoKind::InvalidData => Some("Invalid data"@),
        IoKind::TimedOut => Some("Timed out"@),
        IoKind::WriteZero => Some("Write zero"@),
        IoKind::Interrupted => Some("Interrupted"@),
        IoKind::UnexpectedEof => Some("Unexpected end of file"@),
        IoKind::Other => None,
    }
}

fn kind_message(k: IoKind) -> (r: Option<&'static str>)
    ensures
        match r {
            Some(t) => kind_text(k) == Some(t@),
            None => kind_text(k) is None,
        },
{
    match k {
        IoKind::NotFound => Some("No such file or directory"),
        IoKind::PermissionDenied => Some("Permission denied"),
        IoKind::ConnectionRefused => Some("Connection refused"),
        IoKind::ConnectionReset => Some("Connection reset"),
        IoKind::ConnectionAborted => Some("Connection aborted"),
        IoKind::NotConnected => Some("Not connected"),
        IoKind::AddrInUse => Some("Address in use"),
        IoKind::AddrNotAvailable => Some("Address not available"),
        IoKind::BrokenPipe => Some("Broken pipe"),
        IoKind::AlreadyExists => Some("Already exists"),
        IoKind::WouldBlock => Some("Would block"),
        IoKind::InvalidInput => Some("Invalid input"),
        IoKind::InvalidData => Some("Invalid data"),
        IoKind::TimedOut => Some("Timed out"),
        IoKind::WriteZero => Some("Write zero"),
        IoKind::Interrupted => Some("Interrupted"),
        IoKind::UnexpectedEof => Some("Unexpected end of file"),
        IoKind::Other => None,
    }
}

/// The upper-case letter for a lower-case ASCII letter.
pub open spec fn ascii_upper(c: char) -> char {
    seq![
        'A', 'B', 'C', 'D', 'E', 'F', 'G', 'H', 'I', 'J', 'K', 'L', 'M',
        'N', 'O', 'P', 'Q', 'R', 'S', 'T', 'U', 'V', 'W', 'X', 'Y', 'Z',
    ][(c as u32 - 'a' as u32) as int]
}

/// `s` with its first character upper-cased when that is an ASCII letter.
pub open spec fn capitalized(s: Seq<char>) -> Seq<char> {
    if s.len() > 0 && 'a' <= s[0] <= 'z' {
        s.update(0, ascii_upper(s[0]))
    } else {
        s
    }
}

/// Upper-cases the first character of `text` when it is an ASCII letter.
pub fn capitalize(text: &mut String)
    ensures
        final(text)@ == capitalized(old(text)@),
{
    let n = text.as_str().unicode_len();
    if n == 0 {
        return;
    }
    let c = text.as_str().get_char(0);
    if 'a' <= c && c <= 'z' {
        let letters = "ABCDEFGHIJKLMNOPQRSTUVWXYZ";
        proof {
            reveal_strlit("ABCDEFGHIJKLMNOPQRSTUVWXYZ");
        }
        let k = (c as u32 - 'a' as u32) as usize;
        let mut s = String::new();
        push_char(&mut s, letters.get_char(k));
        s.append(text.as_str().substring_char(1, n));
        proof {
            assert(s@ =~= capitalized(text@));
        }
        *text = s;
    }
}

/// The suffix that the OS appends to its error texts.
pub open spec fn errno_marker() -> Seq<char> {
    " (os error "@
}

/// `pat` occurs in `s` at position `i`.
pub open spec fn occurs_at(s: Seq<char>, pat: Seq<char>, i: int) -> bool {
    0 <= i && i + pat.len() <= s.len() && s.subrange(i, i + pat.len()) == pat
}

/// `r` is `s` cut at the first occurrence of `pat`, or `s` itself when `pat`
/// does not occur.
pub open spec fn cut_at_first(s: Seq<char>, pat: Seq<char>, r: Seq<char>) -> bool {
    ||| (r == s && forall|i: int| !#[trigger] occurs_at(s, pat, i))
    ||| exists|i: int|
        #[trigger] occurs_at(s, pat, i) && r == s.subrange(0, i) && forall|j: int|
            0 <= j < i ==> !#[trigger] occurs_at(s, pat, j)
}

/// Removes the trailing " (os error N)" from an I/O error's text.
pub fn strip_errno(msg: &str) -> (r: String)
    ensures
        cut_at_first(msg@, errno_marker(), r@),
{
    let marker = " (os error ";
    let n = msg.unicode_len();
    let m = marker.unicode_len();
    let mut i: usize = 0;
    while i < n
        invariant
            n == msg@.len(),
            m == marker@.len(),
            marker@ == errno_marker(),
            i <= n,
            forall|j: int| 0 <= j < i ==> !#[trigger] occurs_at(msg@, errno_marker(), j),
        decreases n - i,
    {
        let rest = msg.substring_char(i, n);
        if starts_with(rest, marker) {
            proof {
                assert(msg@.subrange(i as int, i + m) =~= rest@.subrange(0, m as int));
                assert(occurs_at(msg@, errno_marker(), i as int));
            }
            return String::from_str(msg.substring_char(0, i));
        }
        proof {
            if occurs_at(msg@, errno_marker(), i as int) {
                assert(rest@.subrange(0, m as int) =~= msg@.subrange(i as int, i + m));
            }
        }
        i = i + 1;
    }
    proof {
        assert forall|j: int| !#[trigger] occurs_at(msg@, errno_marker(), j) by {
            if j >= n {
                if occurs_at(msg@, errno_marker(), j) {
                    reveal_strlit(" (os error ");
                    assert(errno_marker().len() > 0);
                }
            }
        }
    }
    String::from_str(msg)
}

/// The normalized text of an I/O failure: OS failures of a known kind get a
/// fixed wording, other OS failures their own text without the error code;
/// either way the first letter is capitalized.
pub open spec fn io_message_ok(e: IoFailure, r: Seq<char>) -> bool {
    if e.os_code is Some {
        match kind_text(e.kind) {
            Some(t) => r == t,
            None => exists|cut: Seq<char>|
                cut_at_first(e.text@, errno_marker(), cut) && r == capitalized(cut),
        }
    } else {
        r == capitalized(e.text@)
    }
}

/// An I/O failure with the context it happened in.
pub struct CliIoError {
    pub context: Option<String>,
    pub inner: IoFailure,
}

impl CliIoError {
    pub fn new(context: Option<String>, inner: IoFailure) -> (r: Self)
        ensures
            r.context == context,
            r.inner == inner,
    {
        CliIoError { context, inner }
    }

    /// The failure's message: its context, when there is one, then ": " and
    /// the normalized I/O text.
    pub fn to_message(&self) -> (r: String)
        ensures
            exists|m: Seq<char>|
                io_message_ok(self.inner, m) && r@ == match self.context {
                    Some(ctx) => ctx@ + ": "@ + m,
                    None => m,
                },
    {
        let message = if self.inner.os_code.is_some() {
            match kind_message(self.inner.kind) {
                Some(t) => String::from_str(t),
                None => {
                    let mut m = strip_errno(self.inner.text.as_str());
                    let ghost cut = m@;
                    capitalize(&mut m);
                    assert(cut_at_first(self.inner.text@, errno_marker(), cut) && m@ == capitalized(
                        cut,
                    ));
                    m
                },
            }
        } else {
            let mut m = String::from_str(self.inner.text.as_str());
            capitalize(&mut m);
            m
        };
        assert(io_message_ok(self.inner, message@));
        match &self.context {
            Some(ctx) => {
                let mut s = String::from_str(ctx.as_str());
                s.append(": ");
                s.append(message.as_str());
                assert(s@ == ctx@ + ": "@ + message@);
                s
            },
            None => message,
        }
    }

    /// The response error carrying this failure's message and `status`.
    pub fn with_status(&self, status: u16) -> (r: HttpError)
        ensures
            r.status == status,
            exists|m: Seq<char>|
                io_message_ok(self.inner, m) && r.msg@ == match self.context {
                    Some(ctx) => ctx@ + ": "@ + m,
                    None => m,
                },
    {
        HttpError { msg: self.to_message(), status }
    }
}

impl From<IoFailure> for CliIoError {
    fn from(f: IoFailure) -> (r: Self) {
        CliIoError { context: None, inner: f }
    }
}

impl vstd::std_specs::convert::FromSpecImpl<IoFailure> for CliIoError {
    open spec fn obeys_from_spec() -> bool {
        true
    }

    open spec fn from_spec(f: IoFailure) -> Self {
        CliIoError { context: None, inner: f }
    }
}

impl CliError {
    /// The process failure for an I/O failure: its message, and the OS's
    /// error code as exit code, or 1 when there is none.
    pub fn from_io(f: CliIoError) -> (r: Self)
        ensures
            r.code == match f.inner.os_code {
                Some(c) => c,
                None => 1,
            },
            exists|m: Seq<char>|
                io_message_ok(f.inner, m) && r.msg@ == match f.context {
                    Some(ctx) => ctx@ + ": "@ + m,
                    None => m,
                },
    {
        let code = match f.inner.os_code {
            Some(c) => c,
            None => 1,
        };
        CliError { msg: f.to_message(), code }
    }
}

/// Turns a failure into an error reported to an HTTP client.
pub trait AsHttpError {
    fn set_status(&mut self, status: u16) -> (r: HttpError)
        ensures
            r.status == status,
    ;
}

impl AsHttpError for CliIoError {
    /// Leaves the failure as it is and carries its message with `status`.
    fn set_status(&mut self, status: u16) -> (r: HttpError)
        ensures
            *final(self) == *old(self),
            exists|m: Seq<char>|
                io_message_ok(old(self).inner, m) && r.msg@ == match old(self).context {
                    Some(ctx) => ctx@ + ": "@ + m,
                    None => m,
                },
    {
        self.with_status(status)
    }
}

/// Turns a failure into a `CliIoError` that carries a context.
pub trait FromIo<T>: Sized {
    fn map_err_context(self, context: String) -> T;
}

impl FromIo<Box<CliIoError>> for IoFailure {
    /// The failure itself, unchanged, under `context`.
    fn map_err_context(self, context: String) -> (r: Box<CliIoError>)
        ensures
            r.context == Some(context),
            r.inner == self,
    {
        Box::new(CliIoError { context: Some(context), inner: self })
    }
}

impl FromIo<Box<CliIoError>> for IoKind {
    /// A failure of this kind with no OS error code and an empty text, under
    /// `context`.
    fn map_err_context(self, context: String) -> (r: Box<CliIoError>)
        ensures
            r.context == Some(context),
            r.inner.kind == self,
            r.inner.os_code is None,
            r.inner.text@ == Seq::<char>::empty(),
    {
        Box::new(
            CliIoError {
                context: Some(context),
                inner: IoFailure { kind: self, os_code: None, text: String::new() },
            },
        )
    }
}

} // verus!
