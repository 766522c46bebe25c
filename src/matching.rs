//! Comparison of a typed text with its reference, as runs of characters
//! that share one status.

use vstd::prelude::*;
use crate::game::chars_of;

verus! {

/// Status of one character of the reference.
#[derive(Clone, Copy, Debug, PartialEq, Eq, Structural)]
pub enum TextStatus {
    Unfilled,
    Filled,
    Wrong,
}

/// A run of reference characters that share one status.
#[derive(Debug, PartialEq)]
pub struct TypedString {
    pub text_status: TextStatus,
    pub text: String,
}

/// Status of position `i` of reference `created` against `written`: not
/// reached yet, typed as expected, or typed otherwise.
pub open spec fn status_at(written: Seq<char>, created: Seq<char>, i: int) -> TextStatus {
    if i >= written.len() {
        TextStatus::Unfilled
    } else if written[i] == created[i] {
        TextStatus::Filled
    } else {
        TextStatus::Wrong
    }
}

/// The maximal runs of equal status over the first `k` characters of
/// `created`, in order, each with its characters.
pub open spec fn runs(written: Seq<char>, created: Seq<char>, k: nat) -> Seq<(TextStatus, Seq<char>)>
    decreases k,
{
    if k == 0 {
        Seq::empty()
    } else {
        let prev = runs(written, created, (k - 1) as nat);
        let s = status_at(written, created, k - 1);
        let c = created[k - 1];
        if prev.len() > 0 && prev.last().0 == s {
            prev.update(prev.len() - 1, (s, prev.last().1.push(c)))
        } else {
            prev.push((s, seq![c]))
        }
    }
}

/// The runs of a comparison: those of the whole reference, or a single
/// empty unfilled run for an empty reference.
pub open spec fn matched_runs(written: Seq<char>, created: Seq<char>) -> Seq<(TextStatus, Seq<char>)> {
    if created.len() == 0 {
        seq![(TextStatus::Unfilled, Seq::<char>::empty())]
    } else {
        runs(written, created, created.len())
    }
}

/// The runs held by a list of typed strings.
pub open spec fn runs_of(v: Seq<TypedString>) -> Seq<(TextStatus, Seq<char>)> {
    v.map_values(|t: TypedString| (t.text_status, t.text@))
}

/// Relies on String::push: appends `c`.
#[verifier::external_body]
fn push_char(s: &mut String, c: char)
    ensures
        final(s)@ == old(s)@.push(c),
{
    s.push(c)
}

/// Relies on String::pop: removes the last character, if any.
#[verifier::external_body]
fn pop_char(s: &mut String)
    ensures
        final(s)@ == if old(s)@.len() == 0 {
            old(s)@
        } else {
            old(s)@.drop_last()
        },
{
    s.pop();
}

/// Splits `created_text` into maximal runs of characters that share their
/// status against `written_text` (see `matched_runs`).
pub fn get_matched_strings(written_text: &String, created_text: &String) -> (r: Vec<TypedString>)
    ensures
        runs_of(r@) == matched_runs(written_text@, created_text@),
{
    let written = chars_of(written_text.as_str());
    let created = chars_of(created_text.as_str());
    let n = created.len();
    let mut res: Vec<TypedString> = Vec::new();
    let mut status = TextStatus::Unfilled;
    let mut current = String::new();
    let mut i: usize = 0;
    while i < n
        invariant
            n == created@.len(),
            written@ == written_text@,
            created@ == created_text@,
            0 <= i <= n,
            i == 0 ==> res@.len() == 0 && current@.len() == 0 && status == TextStatus::Unfilled,
            i > 0 ==> runs(written@, created@, i as nat) == runs_of(res@).push((status, current@)),
        decreases n - i,
    {
        let s = if i >= written.len() {
            TextStatus::Unfilled
        } else if written[i] == created[i] {
            TextStatus::Filled
        } else {
            TextStatus::Wrong
        };
        let c = created[i];
        let ghost before = runs_of(res@);
        let ghost cur0 = current@;
        if i > 0 && s != status {
            let done = current;
            res.push(TypedString { text_status: status, text: done });
            current = String::new();
            proof {
                assert(runs_of(res@) =~= before.push((status, cur0)));
            }
        }
        push_char(&mut current, c);
        status = s;
        proof {
            let k = (i + 1) as nat;
            let prev = runs(written@, created@, i as nat);
            assert(s == status_at(written@, created@, i as int));
            assert(c == created@[k - 1]);
            if i == 0 {
                assert(current@ =~= seq![c]);
                assert(runs(written@, created@, k) =~= runs_of(res@).push((status, current@)));
            } else {
                assert(prev == before.push((prev.last().0, cur0)));
                if prev.last().0 == s {
                    assert(runs_of(res@) =~= before);
                    assert(current@ == cur0.push(c));
                    assert(runs(written@, created@, k) =~= runs_of(res@).push((status, current@)));
                } else {
                    assert(current@ =~= seq![c]);
                    assert(runs(written@, created@, k) =~= runs_of(res@).push((status, current@)));
                }
            }
        }
        i = i + 1;
    }
    let ghost before = runs_of(res@);
    res.push(TypedString { text_status: status, text: current });
    proof {
        assert(runs_of(res@) =~= before.push((status, current@)));
        if n == 0 {
            assert(before =~= Seq::<(TextStatus, Seq<char>)>::empty());
            assert(current@ =~= Seq::<char>::empty());
            assert(runs_of(res@) =~= matched_runs(written_text@, created_text@));
        }
    }
    res
}

/// Fixed reference text for the plain console exercise.
pub fn get_random_test() -> (r: String)
    ensures
        r@ == "Not a random text, only used for testing"@,
{
    "Not a random text, only used for testing".to_owned()
}

/// Character that the plain console exercise reads for Backspace.
pub const ERASE_KEY: char = '\u{232B}';

/// Applies a key read by the plain console exercise to the typed text: the
/// erase key removes the last character, any other is appended.
pub fn apply_key(written_text: &mut String, c: char)
    ensures
        c == ERASE_KEY ==> final(written_text)@ == if old(written_text)@.len() == 0 {
            old(written_text)@
        } else {
            old(written_text)@.drop_last()
        },
        c != ERASE_KEY ==> final(written_text)@ == old(written_text)@.push(c),
{
    if c == ERASE_KEY {
        pop_char(written_text);
    } else {
        push_char(written_text, c);
    }
}

} // verus!
