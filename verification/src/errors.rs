//! Normalizes the three failure shapes (string error, absence, canonical
//! error) into results over `anyhow::Error`, and annotates failures with
//! messages, log records and call-site locations.
//!
//! An `anyhow::Error` is modeled by the chain of its layers' display texts,
//! outermost layer first (`chain_of`), together with its own display text
//! (`display_of`, the outermost layer's text) and its debug rendering
//! (`debug_of`).

use vstd::prelude::*;

use crate::text::dec_str;
use crate::text::join_msg;
use crate::text::joined_text;
use crate::text::u32_dec;

verus! {

#[verifier::external_type_specification]
#[verifier::external_body]
pub struct ExAnyhowError(anyhow::Error);

/// The display texts of the error's layers, outermost (most recently added)
/// first; the last element renders the original cause.
pub uninterp spec fn chain_of(e: anyhow::Error) -> Seq<Seq<char>>;

/// The text that displaying the error yields: the outermost layer's text.
pub uninterp spec fn display_of(e: anyhow::Error) -> Seq<char>;

/// The text that the error's debug rendering yields.
pub uninterp spec fn debug_of(e: anyhow::Error) -> Seq<char>;

/// The chain that results from wrapping an error in one more context layer.
pub open spec fn layered(chain: Seq<Seq<char>>, text: Seq<char>) -> Seq<Seq<char>> {
    seq![text] + chain
}

/// The sentinel text standing for a missing optional value.
pub open spec fn absence_text() -> Seq<char> {
    "Option is None"@
}

/// Relies on `anyhow::Error::msg`: the resulting error displays exactly the
/// given message and has no further layer or cause beneath it.
#[verifier::external_body]
fn make_error(msg: String) -> (e: anyhow::Error)
    ensures
        chain_of(e) == seq![msg@],
        display_of(e) == msg@,
{
    anyhow::Error::msg(msg)
}

/// Relies on `Display for anyhow::Error` via `ToString`: displaying an error
/// renders the outermost layer's text alone.
#[verifier::external_body]
fn render_error(e: &anyhow::Error) -> (r: String)
    ensures
        r@ == display_of(*e),
{
    e.to_string()
}

/// Relies on `Debug for anyhow::Error`: the debug rendering is a function of
/// the error value alone.
#[verifier::external_body]
fn debug_error(e: &anyhow::Error) -> (r: String)
    ensures
        r@ == debug_of(*e),
{
    format!("{:?}", e)
}

/// Relies on `anyhow::Context::context` for `Result<T, anyhow::Error>`: a
/// success is returned unchanged, and a failure is wrapped in one new layer
/// whose display text is the given text, with the previous layers beneath it.
#[verifier::external_body]
fn attach_context<T>(r: Result<T, anyhow::Error>, text: String) -> (out: Result<T, anyhow::Error>)
    ensures
        r is Ok ==> out is Ok && out->Ok_0 == r->Ok_0,
        r is Err ==> out is Err && chain_of(out->Err_0) == layered(chain_of(r->Err_0), text@) && display_of(out->Err_0) == text@,
{
    anyhow::Context::context(r, text)
}

/// A call site: the source file together with the line and column of the
/// annotation call. Callers capture it themselves and pass it in.
pub struct SourceLocation {
    pub file: String,
    pub line: u32,
    pub column: u32,
}

/// The text `at 'file@line:column'` naming a call site.
pub open spec fn location_text(file: Seq<char>, line: nat, column: nat) -> Seq<char> {
    "at '"@ + file + "@"@ + dec_str(line) + ":"@ + dec_str(column) + "'"@
}

/// The text of a context layer: a caller-supplied rendering followed by the
/// call site, `note at 'file@line:column'`.
pub open spec fn context_layer_text(
    note: Seq<char>,
    file: Seq<char>,
    line: nat,
    column: nat,
) -> Seq<char> {
    note + " "@ + location_text(file, line, column)
}

/// Renders a call site as `at 'file@line:column'`.
pub fn location_string(loc: &SourceLocation) -> (r: String)
    ensures
        r@ == location_text(loc.file@, loc.line as nat, loc.column as nat),
{
    let mut s = "at '".to_owned();
    s.append(loc.file.as_str());
    s.append("@");
    let line_s = u32_dec(loc.line);
    s.append(line_s.as_str());
    s.append(":");
    let col_s = u32_dec(loc.column);
    s.append(col_s.as_str());
    s.append("'");
    proof {
        assert(s@ =~= location_text(loc.file@, loc.line as nat, loc.column as nat));
    }
    s
}

/// The sentinel message standing for a missing optional value.
pub fn absence_string() -> (r: String)
    ensures
        r@ == absence_text(),
{
    "Option is None".to_owned()
}

/// Converts a string-valued failure into a canonical-error result.
pub trait StringAnyhow<T>: Sized {
    /// The success value carried, if any.
    spec fn ok_view(self) -> Option<T>;

    /// The failure message carried, if any.
    spec fn err_view(self) -> Option<Seq<char>>;

    /// Passes a success through unchanged; wraps a failure message into a
    /// single-layer canonical error displaying exactly that message.
    fn anyhow(self) -> (r: Result<T, anyhow::Error>)
        ensures
            self.ok_view() matches Some(v) ==> r == Ok::<T, anyhow::Error>(v),
            self.err_view() matches Some(m) ==> (r matches Err(e) && chain_of(e) == seq![m]
                && display_of(e) == m),
    ;

    /// Passes a success through unchanged; wraps a failure message into a
    /// single-layer canonical error displaying `msg: message`.
    fn anymsg(self, msg: &str) -> (r: Result<T, anyhow::Error>)
        ensures
            self.ok_view() matches Some(v) ==> r == Ok::<T, anyhow::Error>(v),
            self.err_view() matches Some(m) ==> (r matches Err(e) && chain_of(e) == seq![
                joined_text(msg@, m),
            ] && display_of(e) == joined_text(msg@, m)),
    ;
}

impl<T> StringAnyhow<T> for Result<T, String> {
    open spec fn ok_view(self) -> Option<T> {
        match self {
            Ok(v) => Some(v),
            Err(_) => None,
        }
    }

    open spec fn err_view(self) -> Option<Seq<char>> {
        match self {
            Ok(_) => None,
            Err(m) => Some(m@),
        }
    }

    fn anyhow(self) -> (r: Result<T, anyhow::Error>) {
        match self {
            Ok(v) => Ok(v),
            Err(m) => Err(make_error(m)),
        }
    }

    fn anymsg(self, msg: &str) -> (r: Result<T, anyhow::Error>) {
        match self {
            Ok(v) => Ok(v),
            Err(m) => Err(make_error(join_msg(msg, m.as_str()))),
        }
    }
}

/// Converts a result that already carries a canonical error, passing the
/// error through or re-wrapping it under a message prefix.
pub trait ErrorAnyhow<T>: Sized {
    /// The success value carried, if any.
    spec fn ok_view(self) -> Option<T>;

    /// The canonical error carried, if any.
    spec fn err_view(self) -> Option<anyhow::Error>;

    /// Passes both the success value and the failure through unchanged.
    fn anyhow(self) -> (r: Result<T, anyhow::Error>)
        ensures
            self.ok_view() matches Some(v) ==> r == Ok::<T, anyhow::Error>(v),
            self.err_view() matches Some(e) ==> r == Err::<T, anyhow::Error>(e),
    ;

    /// Passes a success through unchanged; replaces a failure with a
    /// single-layer canonical error displaying `msg: ` followed by the
    /// original failure's display text.
    fn anymsg(self, msg: &str) -> (r: Result<T, anyhow::Error>)
        ensures
            self.ok_view() matches Some(v) ==> r == Ok::<T, anyhow::Error>(v),
            self.err_view() matches Some(e) ==> (r matches Err(w) && chain_of(w) == seq![
                joined_text(msg@, display_of(e)),
            ] && display_of(w) == joined_text(msg@, display_of(e))),
    ;
}

impl<T> ErrorAnyhow<T> for Result<T, anyhow::Error> {
    open spec fn ok_view(self) -> Option<T> {
        match self {
            Ok(v) => Some(v),
            Err(_) => None,
        }
    }

    open spec fn err_view(self) -> Option<anyhow::Error> {
        match self {
            Ok(_) => None,
            Err(e) => Some(e),
        }
    }

    fn anyhow(self) -> (r: Result<T, anyhow::Error>) {
        self
    }

    fn anymsg(self, msg: &str) -> (r: Result<T, anyhow::Error>) {
        match self {
            Ok(v) => Ok(v),
            Err(e) => {
                let shown = render_error(&e);
                Err(make_error(join_msg(msg, shown.as_str())))
            },
        }
    }
}

/// Converts an optional value into a canonical-error result, standing in the
/// absence sentinel (or a caller-supplied message) for a missing value.
pub trait OptionAnyhow<T>: Sized {
    /// The value carried, if any.
    spec fn ok_view(self) -> Option<T>;

    /// Passes a present value through unchanged; turns absence into a
    /// single-layer canonical error displaying the absence sentinel.
    fn anyhow(self) -> (r: Result<T, anyhow::Error>)
        ensures
            self.ok_view() matches Some(v) ==> r == Ok::<T, anyhow::Error>(v),
            self.ok_view() is None ==> (r matches Err(e) && chain_of(e) == seq![absence_text()]
                && display_of(e) == absence_text()),
    ;

    /// Passes a present value through unchanged; turns absence into a
    /// single-layer canonical error displaying exactly `msg` — absence carries
    /// no cause, so nothing is joined onto the message.
    fn anymsg(self, msg: &str) -> (r: Result<T, anyhow::Error>)
        ensures
            self.ok_view() matches Some(v) ==> r == Ok::<T, anyhow::Error>(v),
            self.ok_view() is None ==> (r matches Err(e) && chain_of(e) == seq![msg@]
                && display_of(e) == msg@),
    ;
}

impl<T> OptionAnyhow<T> for Option<T> {
    open spec fn ok_view(self) -> Option<T> {
        self
    }

    fn anyhow(self) -> (r: Result<T, anyhow::Error>) {
        match self {
            Some(v) => Ok(v),
            None => Err(make_error(absence_string())),
        }
    }

    fn anymsg(self, msg: &str) -> (r: Result<T, anyhow::Error>) {
        match self {
            Some(v) => Ok(v),
            None => Err(make_error(msg.to_owned())),
        }
    }
}

/// Annotates the failure path of a result (or of an optional value) with a
/// log record, a message, or a call-site context layer, and leaves the
/// success path untouched.
pub trait Debugging<T>: Sized {
    /// The success value carried, if any.
    spec fn ok_view(self) -> Option<T>;

    /// The canonical error carried, if any; a missing optional value carries
    /// none (the absence sentinel is synthesized on demand).
    spec fn carried_error(self) -> Option<anyhow::Error>;

    /// Returns the input unchanged in shape together with the log record owed
    /// for it: none on success, the failure's debug rendering (or the absence
    /// sentinel) on failure.
    fn log(self) -> (out: (Result<T, anyhow::Error>, Option<String>))
        ensures
            self.ok_view() matches Some(v) ==> out.0 == Ok::<T, anyhow::Error>(v) && out.1
                is None,
            self.carried_error() matches Some(e) ==> out.0 == Err::<T, anyhow::Error>(e) && (
            out.1 matches Some(rec) && rec@ == debug_of(e)),
            self.ok_view() is None && self.carried_error() is None ==> (out.0 matches Err(w)
                && chain_of(w) == seq![absence_text()] && display_of(w) == absence_text()) && (
            out.1 matches Some(rec) && rec@ == absence_text()),
    ;

    /// Like `log`, but the record is `msg: ` followed by the failure's debug
    /// rendering; for a missing optional value both the record and the
    /// returned error are exactly `msg`, with no rendering joined on.
    fn logmsg(self, msg: &str) -> (out: (Result<T, anyhow::Error>, Option<String>))
        ensures
            self.ok_view() matches Some(v) ==> out.0 == Ok::<T, anyhow::Error>(v) && out.1
                is None,
            self.carried_error() matches Some(e) ==> out.0 == Err::<T, anyhow::Error>(e) && (
            out.1 matches Some(rec) && rec@ == joined_text(msg@, debug_of(e))),
            self.ok_view() is None && self.carried_error() is None ==> (out.0 matches Err(w)
                && chain_of(w) == seq![msg@] && display_of(w) == msg@) && (out.1 matches Some(rec)
                && rec@ == msg@),
    ;

    /// On failure, wraps the error (for a missing optional value: the
    /// synthesized absence sentinel) in a new layer reading `note` followed by
    /// the call site; a success is returned unchanged.
    fn context(self, note: String, loc: &SourceLocation) -> (r: Result<T, anyhow::Error>)
        ensures
            self.ok_view() matches Some(v) ==> r == Ok::<T, anyhow::Error>(v),
            self.carried_error() matches Some(e) ==> (r matches Err(w) && chain_of(w) == layered(
                chain_of(e),
                context_layer_text(note@, loc.file@, loc.line as nat, loc.column as nat),
            ) && display_of(w) == context_layer_text(
                note@,
                loc.file@,
                loc.line as nat,
                loc.column as nat,
            )),
            self.ok_view() is None && self.carried_error() is None ==> (r matches Err(w)
                && chain_of(w) == layered(
                seq![absence_text()],
                context_layer_text(note@, loc.file@, loc.line as nat, loc.column as nat),
            ) && display_of(w) == context_layer_text(
                note@,
                loc.file@,
                loc.line as nat,
                loc.column as nat,
            )),
    ;

    /// On failure, wraps the error (for a missing optional value: the
    /// synthesized absence sentinel) in a new layer naming the call site
    /// alone; a success is returned unchanged.
    fn dot(self, loc: &SourceLocation) -> (r: Result<T, anyhow::Error>)
        ensures
            self.ok_view() matches Some(v) ==> r == Ok::<T, anyhow::Error>(v),
            self.carried_error() matches Some(e) ==> (r matches Err(w) && chain_of(w) == layered(
                chain_of(e),
                location_text(loc.file@, loc.line as nat, loc.column as nat),
            ) && display_of(w) == location_text(loc.file@, loc.line as nat, loc.column as nat)),
            self.ok_view() is None && self.carried_error() is None ==> (r matches Err(w)
                && chain_of(w) == layered(
                seq![absence_text()],
                location_text(loc.file@, loc.line as nat, loc.column as nat),
            ) && display_of(w) == location_text(loc.file@, loc.line as nat, loc.column as nat)),
    ;
}

/// Renders `note` followed by the call site, `note at 'file@line:column'`.
fn context_layer_string(note: String, loc: &SourceLocation) -> (r: String)
    ensures
        r@ == context_layer_text(note@, loc.file@, loc.line as nat, loc.column as nat),
{
    let mut s = note;
    s.append(" ");
    let loc_s = location_string(loc);
    s.append(loc_s.as_str());
    s
}

impl<T> Debugging<T> for Result<T, anyhow::Error> {
    open spec fn ok_view(self) -> Option<T> {
        match self {
            Ok(v) => Some(v),
            Err(_) => None,
        }
    }

    open spec fn carried_error(self) -> Option<anyhow::Error> {
        match self {
            Ok(_) => None,
            Err(e) => Some(e),
        }
    }

    fn log(self) -> (out: (Result<T, anyhow::Error>, Option<String>)) {
        match self {
            Ok(v) => (Ok(v), None),
            Err(e) => {
                let rec = debug_error(&e);
                (Err(e), Some(rec))
            },
        }
    }

    fn logmsg(self, msg: &str) -> (out: (Result<T, anyhow::Error>, Option<String>)) {
        match self {
            Ok(v) => (Ok(v), None),
            Err(e) => {
                let shown = debug_error(&e);
                let rec = join_msg(msg, shown.as_str());
                (Err(e), Some(rec))
            },
        }
    }

    fn context(self, note: String, loc: &SourceLocation) -> (r: Result<T, anyhow::Error>) {
        let text = context_layer_string(note, loc);
        attach_context(self, text)
    }

    fn dot(self, loc: &SourceLocation) -> (r: Result<T, anyhow::Error>) {
        let text = location_string(loc);
        attach_context(self, text)
    }
}

impl<T> Debugging<T> for Option<T> {
    open spec fn ok_view(self) -> Option<T> {
        self
    }

    open spec fn carried_error(self) -> Option<anyhow::Error> {
        None
    }

    fn log(self) -> (out: (Result<T, anyhow::Error>, Option<String>)) {
        match self {
            Some(v) => (Ok(v), None),
            None => (Err(make_error(absence_string())), Some(absence_string())),
        }
    }

    fn logmsg(self, msg: &str) -> (out: (Result<T, anyhow::Error>, Option<String>)) {
        match self {
            Some(v) => (Ok(v), None),
            None => (Err(make_error(msg.to_owned())), Some(msg.to_owned())),
        }
    }

    fn context(self, note: String, loc: &SourceLocation) -> (r: Result<T, anyhow::Error>) {
        match self {
            Some(v) => Ok(v),
            None => {
                let text = context_layer_string(note, loc);
                attach_context(Err(make_error(absence_string())), text)
            },
        }
    }

    fn dot(self, loc: &SourceLocation) -> (r: Result<T, anyhow::Error>) {
        match self {
            Some(v) => Ok(v),
            None => {
                let text = location_string(loc);
                attach_context(Err(make_error(absence_string())), text)
            },
        }
    }
}

/// Law: layering one context and then another onto an error is associative in
/// the sense that the resulting chain holds the later layer outermost, the
/// earlier layer right beneath it, and the original chain — the innermost
/// cause last — intact beneath both, so each added layer is recoverable in
/// application order.
pub proof fn lemma_context_layering(e: anyhow::Error, t1: Seq<char>, t2: Seq<char>)
    ensures
        layered(layered(chain_of(e), t1), t2).len() == chain_of(e).len() + 2,
        layered(layered(chain_of(e), t1), t2)[0] == t2,
        layered(layered(chain_of(e), t1), t2)[1] == t1,
        layered(layered(chain_of(e), t1), t2).skip(2) =~= chain_of(e),
{
}

} // verus!
