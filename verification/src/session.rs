use vstd::prelude::*;
use vstd::string::StrSliceExecFns;
use vstd::string::StringExecFns;
use crate::text::dec_str;
use crate::text::u64_to_string;

verus! {

/// The model named by the session document.
pub struct Model {
    pub id: Option<String>,
    pub display_name: Option<String>,
}

/// The workspace named by the session document.
pub struct Workspace {
    pub current_dir: Option<String>,
    pub project_dir: Option<String>,
}

/// Token counters of the session's current request.
pub struct CurrentUsage {
    pub input_tokens: Option<u64>,
    pub output_tokens: Option<u64>,
    pub cache_creation_input_tokens: Option<u64>,
    pub cache_read_input_tokens: Option<u64>,
}

/// The output style named by the session document.
pub struct OutputStyle {
    pub name: Option<String>,
}

/// The suffix of `p` after its last `/`; all of `p` when it holds none.
pub open spec fn after_last_slash(p: Seq<char>) -> Seq<char>
    decreases p.len(),
{
    if p.len() == 0 {
        p
    } else if p.last() == '/' {
        Seq::<char>::empty()
    } else {
        after_last_slash(p.drop_last()).push(p.last())
    }
}

proof fn lemma_after_last_slash_found(p: Seq<char>, j: int)
    requires
        0 <= j < p.len(),
        p[j] == '/',
        forall|k: int| j < k < p.len() ==> p[k] != '/',
    ensures
        after_last_slash(p) == p.subrange(j + 1, p.len() as int),
    decreases p.len(),
{
    if j == p.len() - 1 {
        assert(after_last_slash(p) =~= p.subrange(j + 1, p.len() as int));
    } else {
        lemma_after_last_slash_found(p.drop_last(), j);
        assert(after_last_slash(p) =~= p.subrange(j + 1, p.len() as int));
    }
}

proof fn lemma_after_last_slash_none(p: Seq<char>)
    requires
        forall|k: int| 0 <= k < p.len() ==> p[k] != '/',
    ensures
        after_last_slash(p) == p,
    decreases p.len(),
{
    if p.len() > 0 {
        lemma_after_last_slash_none(p.drop_last());
        assert(after_last_slash(p) =~= p);
    }
}

/// The final path component of `path`: everything after the last `/`,
/// or the whole string when it holds no `/`.
pub fn get_dir_name(path: &str) -> (r: &str)
    ensures
        r@ == after_last_slash(path@),
{
    let len = path.unicode_len();
    let mut i: usize = len;
    while i > 0
        invariant
            len == path@.len(),
            i <= len,
            forall|k: int| i <= k < len ==> path@[k] != '/',
        decreases i,
    {
        if path.get_char(i - 1) == '/' {
            proof {
                lemma_after_last_slash_found(path@, i - 1);
            }
            return path.substring_char(i, len);
        }
        i -= 1;
    }
    proof {
        lemma_after_last_slash_none(path@);
    }
    path
}

/// A session duration in milliseconds, written the way the status line
/// shows it: hours and minutes once it reaches an hour, whole minutes
/// once it reaches a minute, whole seconds below that.
pub open spec fn duration_text(ms: nat) -> Seq<char> {
    let seconds = ms / 1000;
    let minutes = seconds / 60;
    let hours = minutes / 60;
    if hours > 0 {
        dec_str(hours) + "h"@ + dec_str(minutes % 60) + "m"@
    } else if minutes > 0 {
        dec_str(minutes) + "m"@
    } else {
        dec_str(seconds) + "s"@
    }
}

/// Renders a millisecond duration as `NhMm`, `Mm` or `Ss`.
pub fn format_duration(ms: u64) -> (r: String)
    ensures
        r@ == duration_text(ms as nat),
{
    let seconds = ms / 1000;
    let minutes = seconds / 60;
    let hours = minutes / 60;
    if hours > 0 {
        let r = u64_to_string(hours).concat("h").concat(u64_to_string(minutes % 60).as_str()).concat(
            "m",
        );
        proof {
            assert(r@ =~= duration_text(ms as nat));
        }
        r
    } else if minutes > 0 {
        let r = u64_to_string(minutes).concat("m");
        proof {
            assert(r@ =~= duration_text(ms as nat));
        }
        r
    } else {
        let r = u64_to_string(seconds).concat("s");
        proof {
            assert(r@ =~= duration_text(ms as nat));
        }
        r
    }
}

} // verus!
