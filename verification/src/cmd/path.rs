//! Search-path lists and the recursion guard.

use vstd::prelude::*;
use vstd::string::*;

verus! {

/// The segments of a colon-separated list, in order. A list of `k` colons has
/// `k + 1` segments, some of which may be empty.
pub open spec fn segments(list: Seq<char>) -> Seq<Seq<char>>
    decreases list.len(),
{
    if list.len() == 0 {
        seq![Seq::<char>::empty()]
    } else {
        let before = segments(list.drop_last());
        if list.last() == ':' {
            before.push(Seq::<char>::empty())
        } else {
            before.drop_last().push(before.last().push(list.last()))
        }
    }
}

/// The segments written out again, with one colon between neighbours.
pub open spec fn joined(segs: Seq<Seq<char>>) -> Seq<char>
    decreases segs.len(),
{
    if segs.len() == 0 {
        Seq::<char>::empty()
    } else if segs.len() == 1 {
        segs[0]
    } else {
        joined(segs.drop_last()).push(':') + segs.last()
    }
}

/// The test that keeps every segment but `dir`.
pub open spec fn other_than(dir: Seq<char>) -> spec_fn(Seq<char>) -> bool {
    |segment: Seq<char>| segment != dir
}

/// A search-path list without the segments equal to `dir`.
pub open spec fn stripped(dir: Seq<char>, list: Seq<char>) -> Seq<char> {
    joined(segments(list).filter(other_than(dir)))
}

/// Every list has at least one segment.
pub proof fn lemma_segments_nonempty(list: Seq<char>)
    ensures
        segments(list).len() >= 1,
    decreases list.len(),
{
    if list.len() > 0 {
        lemma_segments_nonempty(list.drop_last());
    }
}

/// Reading one more character either closes the open segment or extends it.
proof fn lemma_segments_step(list: Seq<char>, start: int, i: int)
    requires
        0 <= start <= i < list.len(),
        segments(list.take(i)).last() == list.subrange(start, i),
    ensures
        list[i] == ':' ==> segments(list.take(i + 1)) == segments(list.take(i)).push(
            Seq::<char>::empty(),
        ),
        list[i] != ':' ==> segments(list.take(i + 1)).drop_last() == segments(
            list.take(i),
        ).drop_last(),
        list[i] != ':' ==> segments(list.take(i + 1)).last() == list.subrange(start, i + 1),
        segments(list.take(i + 1)).len() >= 1,
{
    let longer = list.take(i + 1);
    assert(longer.drop_last() == list.take(i));
    assert(longer.last() == list[i]);
    lemma_segments_nonempty(list.take(i));
    lemma_segments_nonempty(longer);
    if list[i] != ':' {
        let before = segments(list.take(i));
        assert(before.last().push(list[i]) == list.subrange(start, i + 1));
        assert(before.drop_last().push(before.last().push(list[i])).drop_last()
            == before.drop_last());
    }
}

/// Whether no colon occurs in `text`.
pub open spec fn colon_free(text: Seq<char>) -> bool {
    forall|k: int| 0 <= k < text.len() ==> text[k] != ':'
}

/// Whether stripping `dir` from `list` leaves a list that can be read back:
/// it fails only where `dir` is empty and so is every segment of `list`, for
/// then nothing is kept, and the empty list that comes out still has its one
/// empty segment.
pub open spec fn strips_cleanly(dir: Seq<char>, list: Seq<char>) -> bool {
    dir.len() > 0 || exists|k: int|
        0 <= k < segments(list).len() && (#[trigger] segments(list)[k]).len() > 0
}

/// No segment of a list holds a colon.
pub proof fn lemma_segments_colon_free(list: Seq<char>)
    ensures
        forall|k: int| 0 <= k < segments(list).len() ==> colon_free(#[trigger] segments(list)[k]),
    decreases list.len(),
{
    if list.len() > 0 {
        lemma_segments_colon_free(list.drop_last());
        lemma_segments_nonempty(list.drop_last());
    }
}

/// Text without a colon, written behind a list, extends its last segment.
proof fn lemma_segments_extend(list: Seq<char>, text: Seq<char>)
    requires
        colon_free(text),
    ensures
        segments(list + text) == segments(list).drop_last().push(segments(list).last() + text),
    decreases text.len(),
{
    lemma_segments_nonempty(list);
    let open = segments(list);
    if text.len() == 0 {
        assert(list + text == list);
        assert(open.last() + text == open.last());
        assert(open.drop_last().push(open.last()) == open);
    } else {
        let shorter = text.drop_last();
        lemma_segments_extend(list, shorter);
        assert((list + text).drop_last() == list + shorter);
        assert((list + text).last() == text.last());
        let before = segments(list + shorter);
        assert(before.last() == open.last() + shorter);
        assert(before.drop_last() == open.drop_last());
        assert((open.last() + shorter).push(text.last()) == open.last() + text);
    }
}

/// Segments without colons, joined and split again, come back as they were.
pub proof fn lemma_segments_of_joined(segs: Seq<Seq<char>>)
    requires
        segs.len() >= 1,
        forall|k: int| 0 <= k < segs.len() ==> colon_free(#[trigger] segs[k]),
    ensures
        segments(joined(segs)) == segs,
    decreases segs.len(),
{
    let empty = Seq::<char>::empty();
    if segs.len() == 1 {
        lemma_segments_extend(empty, segs[0]);
        assert(empty + segs[0] == segs[0]);
        assert(segments(empty) == seq![empty]);
        assert(seq![empty].drop_last().push(empty + segs[0]) == segs);
    } else {
        let init = segs.drop_last();
        lemma_segments_of_joined(init);
        let head = joined(init).push(':');
        assert(head.drop_last() == joined(init));
        assert(segments(head) == init.push(empty));
        lemma_segments_extend(head, segs.last());
        assert(init.push(empty).drop_last() == init);
        assert(empty + segs.last() == segs.last());
        assert(init.push(segs.last()) == segs);
    }
}

/// Whether `at` says where each item of `part` stands in `whole`, with the
/// places in rising order.
pub open spec fn picks_in_order(
    part: Seq<Seq<char>>,
    whole: Seq<Seq<char>>,
    at: Seq<int>,
) -> bool {
    &&& at.len() == part.len()
    &&& forall|i: int|
        0 <= i < at.len() ==> 0 <= #[trigger] at[i] < whole.len() && whole[at[i]] == part[i]
    &&& forall|i: int, j: int| 0 <= i < j < at.len() ==> #[trigger] at[i] < #[trigger] at[j]
}

/// Whether `part` is made of items of `whole` in the order in which `whole`
/// has them.
pub open spec fn in_order_within(part: Seq<Seq<char>>, whole: Seq<Seq<char>>) -> bool {
    exists|at: Seq<int>| picks_in_order(part, whole, at)
}

/// The segments that differ from `dir` are segments of the list, in the
/// order of the list.
pub proof fn lemma_kept_in_order(dir: Seq<char>, whole: Seq<Seq<char>>)
    ensures
        in_order_within(whole.filter(other_than(dir)), whole),
    decreases whole.len(),
{
    reveal(Seq::filter);
    let keep = other_than(dir);
    if whole.len() == 0 {
        assert(picks_in_order(whole.filter(keep), whole, Seq::<int>::empty()));
    } else {
        let shorter = whole.drop_last();
        lemma_kept_in_order(dir, shorter);
        let before = choose|at: Seq<int>| picks_in_order(shorter.filter(keep), shorter, at);
        let at = if keep(whole.last()) {
            before.push(whole.len() - 1)
        } else {
            before
        };
        assert(picks_in_order(whole.filter(keep), whole, at));
    }
}

/// Stripping a directory leaves no segment equal to it, and leaves the other
/// segments as they were, in their order: wherever any segment is kept, the
/// segments of the result are exactly the segments of `list` that differ from
/// `dir`. Where none is kept, the result is the empty list.
pub proof fn lemma_stripped_is_free_of_dir(dir: Seq<char>, list: Seq<char>)
    requires
        strips_cleanly(dir, list),
    ensures
        !segments(stripped(dir, list)).contains(dir),
        segments(list).filter(other_than(dir)).len() > 0 ==> segments(stripped(dir, list))
            == segments(list).filter(other_than(dir)),
        segments(list).filter(other_than(dir)).len() > 0 ==> in_order_within(
            segments(stripped(dir, list)),
            segments(list),
        ),
        segments(list).filter(other_than(dir)).len() == 0 ==> stripped(dir, list).len() == 0,
{
    lemma_kept_in_order(dir, segments(list));
    let all = segments(list);
    let keep = other_than(dir);
    let kept = all.filter(keep);
    lemma_segments_colon_free(list);
    assert forall|k: int| 0 <= k < kept.len() implies colon_free(#[trigger] kept[k]) && kept[k]
        != dir by {
        all.lemma_filter_pred(keep, k);
        assert(kept.contains(kept[k]));
        all.lemma_filter_contains_rev(keep, kept[k]);
    }
    if kept.len() == 0 {
        if dir.len() == 0 {
            let k = choose|k: int| 0 <= k < all.len() && (#[trigger] all[k]).len() > 0;
            assert(keep(all[k]));
            all.lemma_filter_contains(keep, k);
        }
        assert(segments(stripped(dir, list)) == seq![Seq::<char>::empty()]);
    } else {
        lemma_segments_of_joined(kept);
    }
}

/// Where the shim's own directory comes first in `PATH`, it is gone from the
/// `PATH` that the child gets, so that the next search for the command does
/// not find the shim again.
pub proof fn lemma_next_search_skips_the_shim(dir: Seq<char>, list: Seq<char>)
    requires
        segments(list)[0] == dir,
        strips_cleanly(dir, list),
    ensures
        !segments(stripped(dir, list)).contains(dir),
{
    lemma_stripped_is_free_of_dir(dir, list);
}

/// Appends `segment` to the list written so far, unless it is `dir`.
fn keep_unless_dir(
    out: &mut String,
    kept_any: &mut bool,
    segment: &str,
    dir: &String,
    Ghost(done): Ghost<Seq<Seq<char>>>,
)
    requires
        old(out)@ == joined(done.filter(other_than(dir@))),
        *old(kept_any) == (done.filter(other_than(dir@)).len() > 0),
    ensures
        final(out)@ == joined(done.push(segment@).filter(other_than(dir@))),
        *final(kept_any) == (done.push(segment@).filter(other_than(dir@)).len() > 0),
{
    let ghost kept = done.filter(other_than(dir@));
    let ghost all = done.push(segment@);
    proof {
        assert(all.drop_last() == done);
        assert(all.last() == segment@);
        reveal(Seq::filter);
    }
    let candidate = segment.to_owned();
    if candidate != *dir {
        proof {
            assert(all.filter(other_than(dir@)) == kept.push(segment@));
            assert(kept.push(segment@).drop_last() == kept);
            reveal_strlit(":");
        }
        if *kept_any {
            out.append(":");
            assert(out@ == joined(kept).push(':'));
        }
        out.append(segment);
        *kept_any = true;
    }
}

/// Returns a shell `PATH` value minus a given directory: every segment equal
/// to `dir` is left out, the others stay in their order.
pub fn remove_dir_from_path(dir: String, path_str: String) -> (child_path: String)
    ensures
        child_path@ == stripped(dir@, path_str@),
        strips_cleanly(dir@, path_str@) ==> !segments(child_path@).contains(dir@),
{
    let list = path_str.as_str();
    let length: usize = list.unicode_len();
    let mut out = String::new();
    let mut kept_any = false;
    let mut start: usize = 0;
    let mut i: usize = 0;
    proof {
        assert(list@.take(0) == Seq::<char>::empty());
        assert(list@.subrange(0, 0) == Seq::<char>::empty());
        assert(segments(list@.take(0)).drop_last() == Seq::<Seq<char>>::empty());
    }
    for letter in letters: list.chars()
        invariant
            letters.seq() == list@,
            list@ == path_str@,
            length == list@.len(),
            i == letters.index(),
            start <= i <= length,
            segments(list@.take(i as int)).len() >= 1,
            segments(list@.take(i as int)).last() == list@.subrange(start as int, i as int),
            out@ == joined(segments(list@.take(i as int)).drop_last().filter(other_than(dir@))),
            kept_any == (segments(list@.take(i as int)).drop_last().filter(
                other_than(dir@),
            ).len() > 0),
    {
        proof {
            lemma_segments_step(list@, start as int, i as int);
        }
        if letter == ':' {
            let segment = list.substring_char(start, i);
            let ghost done = segments(list@.take(i as int)).drop_last();
            keep_unless_dir(&mut out, &mut kept_any, segment, &dir, Ghost(done));
            proof {
                let before = segments(list@.take(i as int));
                assert(done.push(segment@) == before);
                assert(before.push(Seq::<char>::empty()).drop_last() == before);
                assert(list@.subrange(i + 1, i + 1) == Seq::<char>::empty());
            }
            start = i + 1;
        }
        i = i + 1;
    }
    let segment = list.substring_char(start, length);
    let ghost done = segments(list@).drop_last();
    proof {
        assert(list@.take(length as int) == list@);
    }
    keep_unless_dir(&mut out, &mut kept_any, segment, &dir, Ghost(done));
    proof {
        assert(done.push(segment@) == segments(list@));
        if strips_cleanly(dir@, path_str@) {
            lemma_stripped_is_free_of_dir(dir@, path_str@);
        }
    }
    out
}

/// A location in the file system, as the standard library holds it.
#[verifier::external_type_specification]
#[verifier::external_body]
pub struct ExPathBuf(std::path::PathBuf);

/// A borrowed location in the file system.
#[verifier::external_type_specification]
#[verifier::external_body]
pub struct ExPath(std::path::Path);

/// What the operating system says when it refuses a request.
#[verifier::external_type_specification]
#[verifier::external_body]
pub struct ExIoError(std::io::Error);

/// The location that the standard library makes of a text.
pub uninterp spec fn path_of_text(text: Seq<char>) -> std::path::PathBuf;

/// Whether the standard library holds two locations to be equal.
pub uninterp spec fn paths_match(left: std::path::PathBuf, right: std::path::PathBuf) -> bool;

/// `PathBuf::from` on a `String`: the location that the text spells.
#[verifier::external_body]
fn path_from_text(text: String) -> (path: std::path::PathBuf)
    ensures
        path == path_of_text(text@),
{
    std::path::PathBuf::from(text)
}

/// `PathBuf::clone`: the same location once more.
pub assume_specification[ <std::path::PathBuf as Clone>::clone ](
    path: &std::path::PathBuf,
) -> (copy: std::path::PathBuf)
    ensures
        copy == *path,
;

/// The location that the standard library makes of `command` adjoined to
/// `dir`.
pub uninterp spec fn joined_location(dir: &std::path::Path, command: Seq<char>) -> std::path::PathBuf;

/// `Path::join`: `command` adjoined to `dir`, or `command` alone where it is
/// absolute.
#[verifier::external_body]
fn adjoin(dir: &std::path::Path, command: &String) -> (candidate: std::path::PathBuf)
    ensures
        candidate == joined_location(dir, command@),
{
    dir.join(command)
}

/// `Path::canonicalize`: the absolute location with every `.`, `..` and link
/// resolved, as the file system has it at the moment of the call, or the
/// error of the operating system. Nothing is claimed of either.
#[verifier::external_body]
fn canonical(path: &std::path::PathBuf) -> Result<std::path::PathBuf, std::io::Error> {
    path.canonicalize()
}

/// `==` on `PathBuf`: the standard library's comparison of two locations.
#[verifier::external_body]
fn same_path(left: &std::path::PathBuf, right: &std::path::PathBuf) -> (same: bool)
    ensures
        same == paths_match(*left, *right),
{
    left == right
}

/// Whether a command is written as a location, with a `/` in it, and not as
/// a bare name that only a search of `PATH` can find.
pub fn has_separator(command: &str) -> (found: bool)
    ensures
        found == command@.contains('/'),
{
    for letter in letters: command.chars()
        invariant
            letters.seq() == command@,
            forall|k: int| 0 <= k < letters.index() ==> command@[k] != '/',
    {
        if letter == '/' {
            return true;
        }
    }
    false
}

/// What the recursion guard answers once both locations have been looked
/// up. `command` is `None` for a bare name, which is never the shim itself.
pub open spec fn location_verdict(
    command: Option<Result<std::path::PathBuf, std::io::Error>>,
    binary: Result<std::path::PathBuf, std::io::Error>,
) -> Result<bool, std::io::Error> {
    match (command, binary) {
        (Some(Err(refusal)), _) => Err(refusal),
        (_, Err(refusal)) => Err(refusal),
        (None, Ok(_)) => Ok(false),
        (Some(Ok(found)), Ok(own)) => Ok(paths_match(found, own)),
    }
}

/// Decides from the two canonical locations whether the command is the shim
/// itself. A failure to resolve the command is reported before a failure to
/// resolve the shim's own location.
pub fn same_location(
    command: Option<Result<std::path::PathBuf, std::io::Error>>,
    binary: Result<std::path::PathBuf, std::io::Error>,
) -> (verdict: Result<bool, std::io::Error>)
    ensures
        verdict == location_verdict(command, binary),
{
    match command {
        Some(Err(refusal)) => Err(refusal),
        Some(Ok(found)) => match binary {
            Err(refusal) => Err(refusal),
            Ok(own) => Ok(same_path(&found, &own)),
        },
        None => match binary {
            Err(refusal) => Err(refusal),
            Ok(_) => Ok(false),
        },
    }
}

/// The location to resolve for a command: a command with a `/` in it is
/// taken relative to `cur_path`; a bare name has no location of its own, for
/// only a search of `PATH` can find it.
pub fn command_location(cur_cmd: &String, cur_path: &std::path::Path) -> (candidate: Option<
    std::path::PathBuf,
>)
    ensures
        candidate == (if cur_cmd@.contains('/') {
            Some(joined_location(cur_path, cur_cmd@))
        } else {
            None
        }),
{
    if has_separator(cur_cmd.as_str()) {
        Some(adjoin(cur_path, cur_cmd))
    } else {
        None
    }
}

/// Returns whether a command and the shim's own location are the same place.
///
/// The location that `command_location` gives for the command is resolved,
/// where there is one, and so is the shim's own location in either case;
/// `same_location` decides from the two. What the file system refuses comes
/// back as the error.
pub fn paths_equivalent(
    binary_path: std::path::PathBuf,
    cur_cmd: String,
    cur_path: &std::path::Path,
) -> (verdict: Result<bool, std::io::Error>)
    ensures
        exists|
            command: Option<Result<std::path::PathBuf, std::io::Error>>,
            binary: Result<std::path::PathBuf, std::io::Error>,
        |
            (command is Some <==> cur_cmd@.contains('/')) && verdict == #[trigger] location_verdict(
                command,
                binary,
            ),
        !cur_cmd@.contains('/') ==> (verdict matches Ok(same) ==> !same),
{
    let command = match command_location(&cur_cmd, cur_path) {
        Some(candidate) => Some(canonical(&candidate)),
        None => None,
    };
    // Resolved even where it is absolute: `/tmp` may stand for `/private/tmp`.
    let binary = canonical(&binary_path);
    same_location(command, binary)
}

/// The directory in which the shim's links live: the override where one is
/// set, `/etc/hull` otherwise.
pub fn get_hull_symlinks_root(hull_root: Option<String>) -> (root: std::path::PathBuf)
    ensures
        root == path_of_text(
            match hull_root {
                Some(text) => text@,
                None => "/etc/hull"@,
            },
        ),
{
    match hull_root {
        Some(text) => path_from_text(text),
        None => path_from_text("/etc/hull".to_owned()),
    }
}

} // verus!
