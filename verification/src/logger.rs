use crate::error::{CacheError, CacheErrorView, ErrorType};
use crate::text::text_views;
use vstd::prelude::*;
use vstd::string::StringExecFns;

verus! {

/// The settings of the logger that writes the application's trace to a
/// file.
#[derive(Clone, Debug, PartialEq, Eq)]
pub struct BackgroundLogger {
    pub path: String,
    /// The filter to log by, such as `edge_cdn_store=debug,pingora=info`.
    pub filter: Option<String>,
}

impl BackgroundLogger {
    /// The filter to log by: the one set here; else the one that the
    /// environment gives; else `info`.
    pub fn effective_filter(&self, from_env: Option<String>) -> (r: String)
        ensures
            r@ == (match self.filter {
                Some(f) => f@,
                None => match from_env {
                    Some(e) => e@,
                    None => "info"@,
                },
            }),
    {
        match &self.filter {
            Some(f) => f.clone(),
            None => match from_env {
                Some(e) => e,
                None => "info".to_owned(),
            },
        }
    }
}

/// The line that marks a function of `owner` with `arrow`.
pub open spec fn trace_line(arrow: Seq<char>, owner: Seq<char>, fn_name: Seq<char>) -> Seq<char> {
    arrow + owner + "::"@ + fn_name + "()"@
}

/// Builds the line that marks a function of `owner` with `arrow`.
fn trace_mark(arrow: &str, owner: &str, fn_name: &str) -> (r: String)
    ensures
        r@ == trace_line(arrow@, owner@, fn_name@),
{
    let mut s = arrow.to_owned();
    s.append(owner);
    s.append("::");
    s.append(fn_name);
    s.append("()");
    s
}

/// Types whose functions leave marks in the trace.
pub trait Trace {
    /// The name under which the type appears in the trace.
    spec fn name() -> Seq<char>;

    /// The name under which the type appears in the trace.
    fn struct_name() -> (r: &'static str)
        ensures
            r@ == Self::name(),
    ;

    /// The mark of entering `fn_name`.
    fn fn_enter(fn_name: &str) -> (r: String)
        ensures
            r@ == trace_line("---> "@, Self::name(), fn_name@),
    {
        trace_mark("---> ", Self::struct_name(), fn_name)
    }

    /// The mark of passing through `fn_name`.
    fn fn_enter_exit(fn_name: &str) -> (r: String)
        ensures
            r@ == trace_line("<--> "@, Self::name(), fn_name@),
    {
        trace_mark("<--> ", Self::struct_name(), fn_name)
    }

    /// The mark of leaving `fn_name`.
    fn fn_exit(fn_name: &str) -> (r: String)
        ensures
            r@ == trace_line("<--- "@, Self::name(), fn_name@),
    {
        trace_mark("<--- ", Self::struct_name(), fn_name)
    }
}

impl Trace for crate::disk_cache::DiskCache {
    open spec fn name() -> Seq<char> {
        "DiskCache"@
    }

    fn struct_name() -> (r: &'static str) {
        "DiskCache"
    }
}

impl Trace for crate::handle_hit::DiskHitHandler {
    open spec fn name() -> Seq<char> {
        "DiskHitHandler"@
    }

    fn struct_name() -> (r: &'static str) {
        "DiskHitHandler"
    }
}

impl Trace for crate::handle_miss::DiskMissHandler {
    open spec fn name() -> Seq<char> {
        "DiskMissHandler"@
    }

    fn struct_name() -> (r: &'static str) {
        "DiskMissHandler"
    }
}

impl Trace for crate::tiered::TieredStorage {
    open spec fn name() -> Seq<char> {
        "TieredStorage"@
    }

    fn struct_name() -> (r: &'static str) {
        "TieredStorage"
    }
}

impl Trace for crate::proxy::EdgeCdnProxy {
    open spec fn name() -> Seq<char> {
        "EdgeCdnProxy"@
    }

    fn struct_name() -> (r: &'static str) {
        "EdgeCdnProxy"
    }
}

/// The lines that the end of a function leaves in the trace: the mark of
/// entering it, if that is still owed; a message; the mark of leaving it.
pub open spec fn exit_lines(fn_name: Seq<char>, err_msg: Seq<char>, trace_fn_enter: bool) -> Seq<
    Seq<char>,
> {
    let tail = seq!["     "@ + err_msg, "<--- "@ + fn_name];
    if trace_fn_enter {
        seq!["---> "@ + fn_name] + tail
    } else {
        tail
    }
}

/// The lines to trace at the end of a function.
pub fn trace_fn_exit(fn_name: &str, err_msg: &str, trace_fn_enter: bool) -> (lines: Vec<String>)
    ensures
        text_views(lines@) == exit_lines(fn_name@, err_msg@, trace_fn_enter),
{
    let mut lines: Vec<String> = Vec::new();
    if trace_fn_enter {
        let mut enter = "---> ".to_owned();
        enter.append(fn_name);
        lines.push(enter);
    }
    let mut message = "     ".to_owned();
    message.append(err_msg);
    lines.push(message);
    let mut exit = "<--- ".to_owned();
    exit.append(fn_name);
    lines.push(exit);
    assert(text_views(lines@) =~= exit_lines(fn_name@, err_msg@, trace_fn_enter));
    lines
}

/// The lines to trace at the end of a function that fails, and its failure:
/// of the kind given, or an `InternalError`, explained by the message.
pub fn trace_fn_exit_with_err<E>(
    fn_name: &str,
    err_msg: &str,
    error_type: Option<ErrorType>,
    trace_fn_enter: bool,
) -> (r: (Vec<String>, Result<E, CacheError>))
    ensures
        text_views(r.0@) == exit_lines(fn_name@, err_msg@, trace_fn_enter),
        r.1 matches Err(e) && e@ == (CacheErrorView {
            etype: match error_type {
                Some(t) => t,
                None => ErrorType::InternalError,
            },
            context: err_msg@,
            retry: false,
        }),
{
    let lines = trace_fn_exit(fn_name, err_msg, trace_fn_enter);
    let etype = match error_type {
        Some(t) => t,
        None => ErrorType::InternalError,
    };
    (lines, Err(CacheError::explain(etype, err_msg.to_owned())))
}

} // verus!
