use vstd::prelude::*;

verus! {

/// Severity bit of an error message.
pub const SEVERITY_ERROR: u32 = 0x1000;

/// Severity bit of a warning.
pub const SEVERITY_WARNING: u32 = 0x100;

/// Severity bit of an informational message.
pub const SEVERITY_INFO: u32 = 0x10;

/// Severity bit of a verbose message.
pub const SEVERITY_VERBOSE: u32 = 0x1;

/// The logging level a diagnostic message is forwarded at.
#[derive(Debug, Clone, Copy, PartialEq, Eq, Structural)]
pub enum LogLevel {
    Error,
    Warn,
    Info,
    Trace,
}

/// The level for a driver severity value; an unrecognised value is a warning.
pub open spec fn level_of(severity: u32) -> LogLevel {
    if severity == SEVERITY_ERROR {
        LogLevel::Error
    } else if severity == SEVERITY_WARNING {
        LogLevel::Warn
    } else if severity == SEVERITY_INFO {
        LogLevel::Info
    } else if severity == SEVERITY_VERBOSE {
        LogLevel::Trace
    } else {
        LogLevel::Warn
    }
}

/// The level a message of the given severity is logged at.
pub fn severity_level(severity: u32) -> (r: LogLevel)
    ensures
        r == level_of(severity),
{
    if severity == SEVERITY_ERROR {
        LogLevel::Error
    } else if severity == SEVERITY_WARNING {
        LogLevel::Warn
    } else if severity == SEVERITY_INFO {
        LogLevel::Info
    } else if severity == SEVERITY_VERBOSE {
        LogLevel::Trace
    } else {
        LogLevel::Warn
    }
}

/// Each of `labels` by name, `?` for one without a name.
pub open spec fn names_or_placeholder(labels: Seq<Option<String>>) -> Seq<Seq<char>> {
    labels.map_values(|l: Option<String>| match l {
        Some(s) => s@,
        None => "?"@,
    })
}

/// `parts` with `", "` between each two.
pub open spec fn joined(parts: Seq<Seq<char>>) -> Seq<char>
    decreases parts.len(),
{
    if parts.len() == 0 {
        seq![]
    } else if parts.len() == 1 {
        parts[0]
    } else {
        joined(parts.drop_last()) + ", "@ + parts.last()
    }
}

/// The names of queue or command-buffer labels, `?` standing for a missing name.
pub fn label_names(labels: &Vec<Option<String>>) -> (r: Vec<String>)
    ensures
        r@.map_values(|s: String| s@) == names_or_placeholder(labels@),
{
    object_names(labels)
}

/// The names of labelled objects, `?` standing for a missing name.
pub fn object_names(labels: &Vec<Option<String>>) -> (r: Vec<String>)
    ensures
        r@.map_values(|s: String| s@) == names_or_placeholder(labels@),
{
    let mut out: Vec<String> = Vec::new();
    let mut i: usize = 0;
    while i < labels.len()
        invariant
            0 <= i <= labels.len(),
            out@.len() == i,
            out@.map_values(|s: String| s@) == names_or_placeholder(labels@.take(i as int)),
        decreases labels.len() - i,
    {
        let name = match &labels[i] {
            Some(name) => name.clone(),
            None => String::from_str("?"),
        };
        assert(name@ == match labels@[i as int] {
            Some(s) => s@,
            None => "?"@,
        });
        let ghost before = out@;
        out.push(name);
        proof {
            let t = labels@.take(i + 1);
            assert(t.len() == i + 1);
            assert forall|j: int| 0 <= j < i + 1 implies out@.map_values(|s: String| s@)[j]
                == names_or_placeholder(t)[j] by {
                if j < i {
                    assert(out@[j] == before[j]);
                    assert(before.map_values(|s: String| s@)[j] == names_or_placeholder(labels@.take(i as int))[j]);
                    assert(t[j] == labels@.take(i as int)[j]);
                }
            }
            assert(out@.map_values(|s: String| s@) =~= names_or_placeholder(t));
        }
        i = i + 1;
    }
    assert(labels@.take(labels.len() as int) =~= labels@);
    out
}

/// The names joined with `", "` between each two.
pub fn join_names(names: &Vec<String>) -> (r: String)
    ensures
        r@ == joined(names@.map_values(|s: String| s@)),
{
    let ghost parts = names@.map_values(|s: String| s@);
    let mut out = String::new();
    let mut i: usize = 0;
    while i < names.len()
        invariant
            0 <= i <= names.len(),
            parts == names@.map_values(|s: String| s@),
            out@ == joined(parts.take(i as int)),
        decreases names.len() - i,
    {
        proof {
            assert(parts.take(i + 1).drop_last() =~= parts.take(i as int));
        }
        if i > 0 {
            out.append(", ");
        }
        out.append(names[i].as_str());
        proof {
            if i == 0 {
                assert(parts.take(0) =~= Seq::<Seq<char>>::empty());
                assert(out@ =~= parts.take(1)[0]);
            }
        }
        i = i + 1;
    }
    assert(parts.take(names.len() as int) =~= parts);
    out
}

} // verus!
