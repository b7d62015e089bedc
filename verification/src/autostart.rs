//! Start-at-logon through the Windows task scheduler: the task definition,
//! the `schtasks` command lines, how their results are read, and when the task
//! must be registered again.
use vstd::prelude::*;
use vstd::slice::slice_subrange;
use crate::text::{
    is_space, trim_end, trim_start, chars_of, contains_chars, contains_seq, lines_chars, lines_of, matches_at, string_of, trim, trimmed,
    views_of,
};

verus! {

/// The name under which the task is registered.
pub const TASK_NAME: &'static str = "JoyMapperRust";

/// The task definition up to the quoted path of the program to start.
pub const TASK_XML_HEAD: &'static str = "<?xml version=\"1.0\" encoding=\"UTF-16\"?>\n<Task version=\"1.2\" xmlns=\"http://schemas.microsoft.com/windows/2004/02/mit/task\">\n  <RegistrationInfo>\n    <Description>JoyMapper Rust - auto-start on logon</Description>\n  </RegistrationInfo>\n  <Triggers>\n    <LogonTrigger>\n      <Enabled>true</Enabled>\n      <Delay>PT10S</Delay>\n    </LogonTrigger>\n  </Triggers>\n  <Principals>\n    <Principal>\n      <LogonType>InteractiveToken</LogonType>\n      <RunLevel>HighestAvailable</RunLevel>\n    </Principal>\n  </Principals>\n  <Settings>\n    <MultipleInstancesPolicy>IgnoreNew</MultipleInstancesPolicy>\n    <DisallowStartIfOnBatteries>false</DisallowStartIfOnBatteries>\n    <StopIfGoingOnBatteries>false</StopIfGoingOnBatteries>\n    <AllowHardTerminate>true</AllowHardTerminate>\n    <StartWhenAvailable>true</StartWhenAvailable>\n    <RunOnlyIfNetworkAvailable>false</RunOnlyIfNetworkAvailable>\n    <AllowStartOnDemand>true</AllowStartOnDemand>\n    <Enabled>true</Enabled>\n    <Hidden>false</Hidden>\n    <ExecutionTimeLimit>PT0S</ExecutionTimeLimit>\n  </Settings>\n  <Actions Context=\"Author\">\n    <Exec>\n      <Command>\"";

/// The task definition after the quoted path of the program to start.
pub const TASK_XML_TAIL: &'static str = "\"</Command>\n    </Exec>\n  </Actions>\n</Task>";

/// The task definition that starts `exe_path` at logon.
pub fn task_xml(exe_path: &str) -> (r: String)
    ensures
        r@ == TASK_XML_HEAD@ + exe_path@ + TASK_XML_TAIL@,
{
    let mut s = String::from_str(TASK_XML_HEAD);
    s.append(exe_path);
    s.append(TASK_XML_TAIL);
    s
}

fn strings_of(parts: &[&str]) -> (r: Vec<String>)
    ensures
        r@.len() == parts@.len(),
        forall|i: int| 0 <= i < parts@.len() ==> #[trigger] r@[i]@ == parts@[i]@,
{
    let mut r: Vec<String> = Vec::new();
    let mut i: usize = 0;
    while i < parts.len()
        invariant
            i <= parts@.len(),
            r@.len() == i,
            forall|j: int| 0 <= j < i ==> #[trigger] r@[j]@ == parts@[j]@,
        decreases parts.len() - i,
    {
        r.push(String::from_str(parts[i]));
        i = i + 1;
    }
    r
}

/// The arguments of `schtasks` that register the task from the definition in `xml_path`,
/// replacing a task of the same name.
pub fn create_task_args(xml_path: &str) -> (r: Vec<String>)
    ensures
        r@.len() == 6,
        r@[0]@ == "/Create"@,
        r@[1]@ == "/TN"@,
        r@[2]@ == TASK_NAME@,
        r@[3]@ == "/XML"@,
        r@[4]@ == xml_path@,
        r@[5]@ == "/F"@,
{
    strings_of(&["/Create", "/TN", TASK_NAME, "/XML", xml_path, "/F"])
}

/// The arguments of `schtasks` that delete the task.
pub fn delete_task_args() -> (r: Vec<String>)
    ensures
        r@.len() == 4,
        r@[0]@ == "/Delete"@,
        r@[1]@ == "/TN"@,
        r@[2]@ == TASK_NAME@,
        r@[3]@ == "/F"@,
{
    strings_of(&["/Delete", "/TN", TASK_NAME, "/F"])
}

/// The arguments of `schtasks` that ask whether the task exists; with `as_list`,
/// its settings are listed one per line.
pub fn query_task_args(as_list: bool) -> (r: Vec<String>)
    ensures
        !as_list ==> r@.len() == 3,
        as_list ==> r@.len() == 5 && r@[3]@ == "/FO"@ && r@[4]@ == "LIST"@,
        r@[0]@ == "/Query"@,
        r@[1]@ == "/TN"@,
        r@[2]@ == TASK_NAME@,
{
    if as_list {
        strings_of(&["/Query", "/TN", TASK_NAME, "/FO", "LIST"])
    } else {
        strings_of(&["/Query", "/TN", TASK_NAME])
    }
}

/// What registering the task reports, from the exit status and the output of
/// `schtasks`: an error that quotes both outputs when it failed.
pub fn create_outcome(succeeded: bool, stderr: &str, stdout: &str) -> (r: Result<(), String>)
    ensures
        succeeded ==> r is Ok,
        !succeeded ==> (r matches Err(e) && e@ == "schtasks create error: "@ + stderr@ + " | "@ + stdout@),
{
    if succeeded {
        Ok(())
    } else {
        let mut e = String::from_str("schtasks create error: ");
        e.append(stderr);
        e.append(" | ");
        e.append(stdout);
        Err(e)
    }
}

/// What deleting the task reports: a task that was not there counts as deleted.
pub fn delete_outcome(succeeded: bool, stderr: &str) -> (r: Result<(), String>)
    ensures
        r is Ok <==> (succeeded || contains_seq(stderr@, "does not exist"@) || contains_seq(
            stderr@,
            "cannot find"@,
        )),
        r matches Err(e) ==> e@ == "schtasks delete error: "@ + stderr@,
{
    if succeeded {
        return Ok(());
    }
    let v = chars_of(stderr);
    let missing = chars_of("does not exist");
    let unknown = chars_of("cannot find");
    if !contains_chars(v.as_slice(), missing.as_slice()) && !contains_chars(
        v.as_slice(),
        unknown.as_slice(),
    ) {
        let mut e = String::from_str("schtasks delete error: ");
        e.append(stderr);
        Err(e)
    } else {
        Ok(())
    }
}

/// The label before the program path in the task's listing.
pub const TASK_TO_RUN: &'static str = "Task To Run:";

/// The program path of the first listing line that, trimmed, starts with
/// `Task To Run:` and names a non-empty path after it.
pub open spec fn first_task_to_run(lines: Seq<Seq<char>>) -> Option<Seq<char>>
    decreases lines.len(),
{
    if lines.len() == 0 {
        None
    } else {
        let t = trim(lines[0]);
        let label = TASK_TO_RUN@;
        if t.len() >= label.len() && t.take(label.len() as int) == label && trim(
            t.skip(label.len() as int),
        ).len() > 0 {
            Some(trim(t.skip(label.len() as int)))
        } else {
            first_task_to_run(lines.drop_first())
        }
    }
}

/// The program path that the listing of the task (`schtasks /Query /FO LIST`) names.
pub fn task_exe_from_listing(listing: &str) -> (r: Option<String>)
    ensures
        match r {
            Some(p) => first_task_to_run(lines_of(listing@)) == Some(p@),
            None => first_task_to_run(lines_of(listing@)) is None,
        },
{
    let v = chars_of(listing);
    let lines = lines_chars(v.as_slice());
    let label = chars_of(TASK_TO_RUN);
    let ghost ls = lines_of(listing@);
    let mut i: usize = 0;
    assert(ls.skip(0) =~= ls);
    while i < lines.len()
        invariant
            i <= lines@.len(),
            views_of(lines@, ls),
            ls == lines_of(listing@),
            label@ == TASK_TO_RUN@,
            first_task_to_run(ls) == first_task_to_run(ls.skip(i as int)),
        decreases lines.len() - i,
    {
        assert(ls.skip(i as int)[0] == ls[i as int]);
        assert(ls.skip(i as int).drop_first() =~= ls.skip(i + 1));
        let t = trimmed(lines[i].as_slice());
        if matches_at(t.as_slice(), label.as_slice(), 0) {
            assert(t@.subrange(0, label@.len() as int) =~= t@.take(label@.len() as int));
            let rest = slice_subrange(t.as_slice(), label.len(), t.len());
            assert(rest@ =~= t@.skip(label@.len() as int));
            let path = trimmed(rest);
            if path.len() > 0 {
                return Some(string_of(path.as_slice()));
            }
        }
        i = i + 1;
    }
    assert(ls.skip(i as int) =~= Seq::<Seq<char>>::empty());
    None
}

/// `s` without the double quotes at its start and end (what `trim_matches('"')` returns).
pub open spec fn strip_quotes(s: Seq<char>) -> Seq<char>
    decreases s.len(),
{
    if s.len() > 0 && s[0] == '"' {
        strip_quotes(s.drop_first())
    } else if s.len() > 0 && s.last() == '"' {
        strip_quotes(s.drop_last())
    } else {
        s
    }
}

/// Removes the double quotes around a program path.
pub fn unquoted(path: &str) -> (r: String)
    ensures
        r@ == strip_quotes(path@),
{
    let v = chars_of(path);
    let mut lo: usize = 0;
    let mut hi: usize = v.len();
    assert(v@.subrange(0, v@.len() as int) =~= v@);
    while lo < hi && (v[lo] == '"' || v[hi - 1] == '"')
        invariant
            lo <= hi <= v@.len(),
            strip_quotes(v@) == strip_quotes(v@.subrange(lo as int, hi as int)),
        decreases hi - lo,
    {
        let ghost w = v@.subrange(lo as int, hi as int);
        if v[lo] == '"' {
            assert(w.drop_first() =~= v@.subrange(lo + 1, hi as int));
            lo = lo + 1;
        } else {
            assert(w.drop_last() =~= v@.subrange(lo as int, hi - 1));
            hi = hi - 1;
        }
    }
    let mut out: Vec<char> = Vec::new();
    let mut k: usize = lo;
    while k < hi
        invariant
            lo <= k <= hi <= v@.len(),
            out@ == v@.subrange(lo as int, k as int),
        decreases hi - k,
    {
        out.push(v[k]);
        assert(v@.subrange(lo as int, k + 1) =~= v@.subrange(lo as int, k as int).push(v@[k as int]));
        k = k + 1;
    }
    string_of(out.as_slice())
}

/// Name for what `==` on `std::path::Path` gives for the paths written `a` and
/// `b`: a comparison component by component, by the path rules of the platform
/// the program is built for. For a given build it depends on the two texts alone.
pub uninterp spec fn path_eq(a: Seq<char>, b: Seq<char>) -> bool;

/// Compares two paths with `==` on `std::path::Path` (`PartialEq::eq`). Claimed:
/// the result is [`path_eq`] of the two texts, and two identical texts name the
/// same path. Which other texts compare equal (separators, `.` components)
/// follows the platform's path rules and is not stated.
#[verifier::external_body]
fn same_path(a: &str, b: &str) -> (r: bool)
    ensures
        r == path_eq(a@, b@),
        a@ == b@ ==> r,
{
    std::path::Path::new(a) == std::path::Path::new(b)
}

/// Whether the task must be registered again for the program at `current_exe`:
/// always when no task names a program; otherwise exactly when the path it
/// names, quotes removed, is not the same path as `current_exe` (so never when
/// it is exactly this path).
pub fn must_reregister(listed_exe: Option<String>, current_exe: &str) -> (r: bool)
    ensures
        listed_exe is None ==> r,
        listed_exe matches Some(p) ==> r == !path_eq(strip_quotes(p@), current_exe@),
        listed_exe matches Some(p) && strip_quotes(p@) == current_exe@ ==> !r,
{
    match listed_exe {
        None => true,
        Some(p) => {
            let path = unquoted(p.as_str());
            !same_path(path.as_str(), current_exe)
        },
    }
}


/// The program path as the task definition's `<Command>` writes it: in double quotes.
pub open spec fn quoted(p: Seq<char>) -> Seq<char> {
    seq!['"'] + p + seq!['"']
}

proof fn lemma_trim_start_spaces(pad: Seq<char>, q: Seq<char>)
    requires
        forall|i: int| 0 <= i < pad.len() ==> is_space(#[trigger] pad[i]),
        q.len() > 0,
        !is_space(q[0]),
    ensures
        trim_start(pad + q) == q,
    decreases pad.len(),
{
    if pad.len() == 0 {
        assert(pad + q =~= q);
    } else {
        assert((pad + q).drop_first() =~= pad.drop_first() + q);
        assert(is_space(pad[0]));
        lemma_trim_start_spaces(pad.drop_first(), q);
    }
}

proof fn lemma_first_task_after(before: Seq<Seq<char>>, l: Seq<char>, after: Seq<Seq<char>>)
    requires
        first_task_to_run(before) is None,
    ensures
        first_task_to_run(before + seq![l] + after) == first_task_to_run(seq![l] + after),
    decreases before.len(),
{
    if before.len() > 0 {
        assert((before + seq![l] + after).drop_first() =~= before.drop_first() + seq![l] + after);
        assert((before + seq![l] + after)[0] == before[0]);
        lemma_first_task_after(before.drop_first(), l, after);
    } else {
        assert(before + seq![l] + after =~= seq![l] + after);
    }
}

/// A task registered for the program at `p` is left alone when checked again:
/// the listing line `Task To Run:` followed by spaces and the path as the task
/// definition quotes it reads back as that quoted path, and with the quotes
/// removed it is `p` itself, so [`must_reregister`] answers no. (A path has no
/// double quote at either end.)
pub proof fn lemma_registered_task_is_kept(
    p: Seq<char>,
    before: Seq<Seq<char>>,
    pad: Seq<char>,
    after: Seq<Seq<char>>,
)
    requires
        p.len() == 0 || (p[0] != '"' && p.last() != '"'),
        first_task_to_run(before) is None,
        forall|i: int| 0 <= i < pad.len() ==> is_space(#[trigger] pad[i]),
    ensures
        first_task_to_run(before + seq![TASK_TO_RUN@ + pad + quoted(p)] + after) == Some(quoted(p)),
        strip_quotes(quoted(p)) == p,
{
    reveal_strlit("Task To Run:");
    let label = TASK_TO_RUN@;
    let q = quoted(p);
    let l = label + pad + q;
    assert(q[0] == '"' && q.last() == '"');
    assert(!is_space('"'));
    // The line is its own trimmed form.
    assert(l[0] == 'T');
    assert(!is_space('T'));
    assert(trim_start(l) == l);
    assert(l.last() == '"');
    assert(trim_end(l) == l);
    assert(trim(l) == l);
    // After the label come the spaces, then the quoted path.
    assert(l.take(label.len() as int) =~= label);
    assert(l.skip(label.len() as int) =~= pad + q);
    lemma_trim_start_spaces(pad, q);
    assert(trim_end(q) == q);
    assert(trim(l.skip(label.len() as int)) == q);
    lemma_first_task_after(before, l, after);
    assert((seq![l] + after)[0] == l);
    // Removing the quotes gives the path back.
    let inner = p + seq!['"'];
    assert(q.drop_first() =~= inner);
    assert(inner.drop_last() =~= p);
    if p.len() == 0 {
        assert(inner =~= seq!['"']);
        assert(inner.drop_first() =~= p);
        assert(strip_quotes(inner.drop_first()) == p);
        assert(strip_quotes(inner) == p);
    } else {
        assert(inner[0] == p[0]);
        assert(inner.last() == '"');
        assert(strip_quotes(p) == p);
        assert(strip_quotes(inner) == p);
    }
}
} // verus!
