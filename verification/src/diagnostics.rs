//! The diagnostics callback: a stateless projection of runtime messages
//! onto an operator-visible text line, plus the fixed "do not abort"
//! verdict handed back to the runtime.

use vstd::prelude::*;
use vstd::string::StringExecFns;

verus! {

/// How severe a diagnostics message is.
#[derive(Clone, Copy, Debug, PartialEq, Eq, Structural)]
pub enum Severity {
    Verbose,
    Info,
    Warning,
    Error,
}

/// Which part of the runtime's work a diagnostics message concerns.
#[derive(Clone, Copy, Debug, PartialEq, Eq, Structural)]
pub enum Category {
    General,
    Validation,
    Performance,
}

/// A transient message handed to the diagnostics callback by the
/// runtime.  It is formatted and emitted, never persisted.
pub struct DebugMessage {
    pub severity: Severity,
    pub category: Category,
    pub text: String,
}

/// The lower-case tag under which a severity is reported.
pub open spec fn spec_severity_label(s: Severity) -> Seq<char> {
    match s {
        Severity::Verbose => "verbose"@,
        Severity::Info => "info"@,
        Severity::Warning => "warning"@,
        Severity::Error => "error"@,
    }
}

/// The lower-case tag under which a category is reported.
pub open spec fn spec_category_label(c: Category) -> Seq<char> {
    match c {
        Category::General => "general"@,
        Category::Validation => "validation"@,
        Category::Performance => "performance"@,
    }
}

/// The full line the callback emits for a message:
/// `[Debug][severity][category] text`.
pub open spec fn spec_message_line(m: DebugMessage) -> Seq<char> {
    "[Debug]["@ + spec_severity_label(m.severity) + "]["@ + spec_category_label(m.category)
        + "] "@ + m.text@
}

pub fn severity_label(s: Severity) -> (r: &'static str)
    ensures
        r@ == spec_severity_label(s),
{
    match s {
        Severity::Verbose => "verbose",
        Severity::Info => "info",
        Severity::Warning => "warning",
        Severity::Error => "error",
    }
}

pub fn category_label(c: Category) -> (r: &'static str)
    ensures
        r@ == spec_category_label(c),
{
    match c {
        Category::General => "general",
        Category::Validation => "validation",
        Category::Performance => "performance",
    }
}

/// Builds the operator-visible line for one message.  The emission
/// itself (console output) happens outside the library.
pub fn message_line(m: &DebugMessage) -> (r: String)
    ensures
        r@ == spec_message_line(*m),
{
    let mut out = String::from_str("[Debug][");
    out.append(severity_label(m.severity));
    out.append("][");
    out.append(category_label(m.category));
    out.append("] ");
    out.append(m.text.as_str());
    proof {
        assert(out@ =~= spec_message_line(*m));
    }
    out
}

/// The verdict the callback returns to the runtime for every message:
/// `false`, "do not abort the triggering call".  The callback keeps no
/// state across invocations, so the verdict depends on nothing.
pub fn abort_verdict(m: &DebugMessage) -> (abort: bool)
    ensures
        !abort,
{
    let _ = m;
    false
}

/// Every severity the messenger is registered to listen to: all of them.
pub fn monitored_severities() -> (r: Vec<Severity>)
    ensures
        r@ =~= seq![Severity::Verbose, Severity::Info, Severity::Warning, Severity::Error],
        forall|s: Severity| r@.contains(s),
{
    let mut v: Vec<Severity> = Vec::new();
    v.push(Severity::Verbose);
    v.push(Severity::Info);
    v.push(Severity::Warning);
    v.push(Severity::Error);
    proof {
        assert forall|s: Severity| v@.contains(s) by {
            match s {
                Severity::Verbose => assert(v@[0] == s),
                Severity::Info => assert(v@[1] == s),
                Severity::Warning => assert(v@[2] == s),
                Severity::Error => assert(v@[3] == s),
            }
        }
    }
    v
}

/// Every category the messenger is registered to listen to: all of them.
pub fn monitored_categories() -> (r: Vec<Category>)
    ensures
        r@ =~= seq![Category::General, Category::Validation, Category::Performance],
        forall|c: Category| r@.contains(c),
{
    let mut v: Vec<Category> = Vec::new();
    v.push(Category::General);
    v.push(Category::Validation);
    v.push(Category::Performance);
    proof {
        assert forall|c: Category| v@.contains(c) by {
            match c {
                Category::General => assert(v@[0] == c),
                Category::Validation => assert(v@[1] == c),
                Category::Performance => assert(v@[2] == c),
            }
        }
    }
    v
}

} // verus!
