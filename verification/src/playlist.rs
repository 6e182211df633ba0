//! From what the playlist tool prints to the addresses of the playlist's videos.
use crate::text::{chars_of, push_char, push_text, texts};
use vstd::prelude::*;

verus! {

/// Number of characters of `s` before its first line feed; all of them
/// where it has none.
pub open spec fn first_newline(s: Seq<char>) -> nat
    decreases s.len(),
{
    if s.len() == 0 {
        0
    } else if s[0] == '\n' {
        0
    } else {
        1 + first_newline(s.drop_first())
    }
}

/// `line` without the carriage return at its end, if it has one.
pub open spec fn without_return(line: Seq<char>) -> Seq<char> {
    if line.len() > 0 && line.last() == '\r' {
        line.drop_last()
    } else {
        line
    }
}

/// The lines of `s`: it is cut at each line feed, and a carriage return
/// before a line feed goes with it. What stands behind the last line feed
/// is a line as it is, unless it is empty.
pub open spec fn lines_of(s: Seq<char>) -> Seq<Seq<char>>
    decreases s.len(),
{
    if s.len() == 0 {
        Seq::empty()
    } else {
        let n = first_newline(s) as int;
        if n >= s.len() {
            seq![s]
        } else {
            seq![without_return(s.take(n))] + lines_of(s.skip(n + 1))
        }
    }
}

/// Whether `pattern` stands in `s` at index `at`.
pub open spec fn stands_at(s: Seq<char>, pattern: Seq<char>, at: int) -> bool {
    0 <= at && at + pattern.len() <= s.len() && s.subrange(at, at + pattern.len()) == pattern
}

/// Whether `pattern` stands somewhere in `s`.
pub open spec fn has_infix(s: Seq<char>, pattern: Seq<char>) -> bool {
    exists|at: int| stands_at(s, pattern, at)
}

/// The address of the video with the id `id`.
pub open spec fn video_url(id: Seq<char>) -> Seq<char> {
    "https://www.youtube.com/watch?v="@ + id
}

/// The addresses for the first `n` of `lines`, without those of lines that
/// report a video as not available.
pub open spec fn kept_urls(lines: Seq<Seq<char>>, n: int) -> Seq<Seq<char>>
    decreases n,
{
    if n <= 0 {
        Seq::empty()
    } else if has_infix(lines[n - 1], "available"@) {
        kept_urls(lines, n - 1)
    } else {
        kept_urls(lines, n - 1).push(video_url(lines[n - 1]))
    }
}

/// The addresses of a playlist's videos, from what the tool printed.
pub open spec fn playlist_urls(output: Seq<char>) -> Seq<Seq<char>> {
    kept_urls(lines_of(output), lines_of(output).len() as int)
}

/// Where the first line feed of `s` stands, given that none stands before `k`.
proof fn lemma_first_newline(s: Seq<char>, k: int)
    requires
        0 <= k <= s.len(),
        forall|j: int| 0 <= j < k ==> s[j] != '\n',
        k < s.len() ==> s[k] == '\n',
    ensures
        first_newline(s) == k,
    decreases k,
{
    if k > 0 {
        let rest = s.drop_first();
        assert forall|j: int| 0 <= j < k - 1 implies rest[j] != '\n' by {
            assert(rest[j] == s[j + 1]);
        }
        lemma_first_newline(rest, k - 1);
    }
}

/// Whether `pattern` stands in `s` at index `at`.
fn found_at(s: &Vec<char>, pattern: &Vec<char>, at: usize) -> (b: bool)
    requires
        at + pattern.len() <= s.len(),
    ensures
        b == stands_at(s@, pattern@, at as int),
{
    let mut i: usize = 0;
    while i < pattern.len()
        invariant
            i <= pattern.len(),
            at + pattern.len() <= s.len(),
            forall|k: int| 0 <= k < i ==> s@[at + k] == pattern@[k],
        decreases pattern.len() - i,
    {
        if s[at + i] != pattern[i] {
            assert(s@.subrange(at as int, at + pattern.len())[i as int] != pattern@[i as int]);
            return false;
        }
        i += 1;
    }
    assert(s@.subrange(at as int, at + pattern.len()) =~= pattern@);
    true
}

/// Whether `pattern` stands somewhere in `s`.
pub fn contains(s: &Vec<char>, pattern: &Vec<char>) -> (b: bool)
    ensures
        b == has_infix(s@, pattern@),
{
    if pattern.len() > s.len() {
        return false;
    }
    let last = s.len() - pattern.len();
    let mut at: usize = 0;
    while at <= last
        invariant
            last == s.len() - pattern.len(),
            at <= last,
            forall|k: int| 0 <= k < at ==> !stands_at(s@, pattern@, k),
        decreases last - at,
    {
        if found_at(s, pattern, at) {
            return true;
        }
        if at == last {
            assert forall|k: int| !stands_at(s@, pattern@, k) by {
                if 0 <= k && k <= last {
                    assert(!stands_at(s@, pattern@, k));
                }
            }
            return false;
        }
        at += 1;
    }
    false
}

/// The lines of `s`.
pub fn lines(s: &Vec<char>) -> (found: Vec<Vec<char>>)
    ensures
        found@.map_values(|line: Vec<char>| line@) == lines_of(s@),
{
    let ghost line_views = |line: Vec<char>| line@;
    let mut found: Vec<Vec<char>> = Vec::new();
    let mut line: Vec<char> = Vec::new();
    let mut start: usize = 0;
    let mut i: usize = 0;
    assert(s@.skip(0) =~= s@);
    assert(found@.map_values(line_views) =~= Seq::<Seq<char>>::empty());
    while i < s.len()
        invariant
            start <= i <= s.len(),
            line_views == |line: Vec<char>| line@,
            line@ == s@.subrange(start as int, i as int),
            forall|j: int| start <= j < i ==> s@[j] != '\n',
            found@.map_values(line_views) + lines_of(s@.skip(start as int)) == lines_of(s@),
        decreases s.len() - i,
    {
        let c = s[i];
        if c == '\n' {
            let ghost rest = s@.skip(start as int);
            let ghost before = found@.map_values(line_views);
            proof {
                assert forall|j: int| 0 <= j < i - start implies rest[j] != '\n' by {
                    assert(rest[j] == s@[start + j]);
                }
                lemma_first_newline(rest, i - start);
                assert(rest.take(i - start) =~= line@);
                assert(rest.skip(i - start + 1) =~= s@.skip(i + 1));
            }
            let ghost cut = without_return(rest.take(i - start));
            if line.len() > 0 && line[line.len() - 1] == '\r' {
                line.pop();
            }
            assert(line@ =~= cut);
            found.push(line);
            line = Vec::new();
            start = i + 1;
            proof {
                assert(found@.map_values(line_views) =~= before.push(cut));
                assert(before + (seq![cut] + lines_of(s@.skip(start as int))) =~= before.push(cut)
                    + lines_of(s@.skip(start as int)));
                assert(line@ =~= s@.subrange(start as int, start as int));
            }
        } else {
            line.push(c);
            assert(line@ =~= s@.subrange(start as int, i + 1));
        }
        i += 1;
    }
    let ghost rest = s@.skip(start as int);
    let ghost before = found@.map_values(line_views);
    proof {
        assert(rest =~= line@);
        assert forall|j: int| 0 <= j < rest.len() implies rest[j] != '\n' by {
            assert(rest[j] == s@[start + j]);
        }
        lemma_first_newline(rest, rest.len() as int);
    }
    if line.len() > 0 {
        found.push(line);
        proof {
            assert(found@.map_values(line_views) =~= before.push(rest));
            assert(before + seq![rest] =~= before.push(rest));
        }
    } else {
        proof {
            assert(before + Seq::<Seq<char>>::empty() =~= before);
        }
    }
    found
}

/// The addresses of a playlist's videos, from what the playlist tool
/// printed: one for each line, but none for a line that reports a video
/// as not available.
pub fn ytdl_playlist(output: &str) -> (urls: Vec<String>)
    ensures
        texts(urls@) == playlist_urls(output@),
{
    let chars = chars_of(output);
    let found = lines(&chars);
    let pattern = chars_of("available");
    let ghost all = lines_of(output@);
    let ghost line_views = |line: Vec<char>| line@;
    let mut urls: Vec<String> = Vec::new();
    let mut i: usize = 0;
    assert(texts(urls@) =~= Seq::<Seq<char>>::empty());
    while i < found.len()
        invariant
            i <= found.len(),
            pattern@ == "available"@,
            line_views == |line: Vec<char>| line@,
            found@.map_values(line_views) == all,
            texts(urls@) == kept_urls(all, i as int),
        decreases found.len() - i,
    {
        let line = &found[i];
        assert(all[i as int] == line@);
        if !contains(line, &pattern) {
            let ghost before = texts(urls@);
            let mut url = String::new();
            push_text(&mut url, "https://www.youtube.com/watch?v=");
            let ghost head = url@;
            let mut k: usize = 0;
            while k < line.len()
                invariant
                    k <= line.len(),
                    url@ == head + line@.take(k as int),
                decreases line.len() - k,
            {
                push_char(&mut url, line[k]);
                k += 1;
                assert(url@ =~= head + line@.take(k as int));
            }
            assert(line@.take(line.len() as int) =~= line@);
            assert(url@ =~= video_url(line@));
            urls.push(url);
            assert(texts(urls@) =~= before.push(video_url(line@)));
        }
        i += 1;
    }
    urls
}

} // verus!
