//! The chapter-index source: a serial's chapter list scraped from its index
//! page.
//!
//! The fetch and the markup extraction happen outside the library; what
//! arrives here is each chapter anchor's inner text and its relative link.
//! This module owns how an anchor becomes an `Update` — the number after the
//! first space or colon is the id, the text after the first ": " is the
//! title — and keeps the resulting feed ordered newest (highest id) first.

use vstd::prelude::*;
use vstd::string::StrSliceExecFns;
use vstd::string::StringExecFns;
use vstd::seq_lib::lemma_multiset_commutative;
use crate::{Media, Update, UpdateView};
use crate::num::{all_digits, dec_value};

verus! {

/// The base address of the serial's index; every chapter link is relative
/// to it.
pub open spec fn sb_base_spec() -> Seq<char> {
    "https://www.sbnation.com/secret-base/21410129/20020"@
}

/// The position of the first ": " in `s` at or after `from`, or `s.len()`
/// when there is none.
pub open spec fn find_colon_space(s: Seq<char>, from: int) -> int
    decreases s.len() - from,
{
    if !(0 <= from && from + 1 < s.len()) {
        s.len() as int
    } else if s[from] == ':' && s[from + 1] == ' ' {
        from
    } else {
        find_colon_space(s, from + 1)
    }
}

/// The position of the first space or colon in `s` at or after `from`, or
/// `s.len()` when there is none.
pub open spec fn find_sep(s: Seq<char>, from: int) -> int
    decreases s.len() - from,
{
    if !(0 <= from < s.len()) {
        s.len() as int
    } else if s[from] == ' ' || s[from] == ':' {
        from
    } else {
        find_sep(s, from + 1)
    }
}

/// How one chapter anchor converts: the text between the first ": " and the
/// next (or the end) is the title; the digits between the first space-or-
/// colon and the next (or the end) are the id; the link is the base address
/// with the anchor's relative link appended. Anchors without a ": ", without
/// a second space-or-colon segment, or whose id segment is not a number are
/// dropped.
pub open spec fn sb_entry(text: Seq<char>, href: Seq<char>, media: Media) -> Option<UpdateView> {
    let c1 = find_colon_space(text, 0);
    let c2 = find_colon_space(text, c1 + 2);
    let j1 = find_sep(text, 0);
    let j2 = find_sep(text, j1 + 1);
    if c1 >= text.len() || j1 >= text.len() {
        None
    } else {
        let id_text = text.subrange(j1 + 1, j2);
        if id_text.len() > 0 && all_digits(id_text) && dec_value(id_text) <= u64::MAX {
            Some(UpdateView {
                id: dec_value(id_text) as u64,
                title: text.subrange(c1 + 2, c2),
                link: sb_base_spec() + href,
                media: media,
                show_id: true,
            })
        } else {
            None
        }
    }
}

fn find_colon_space_exec(s: &str, from: usize) -> (r: usize)
    requires
        from <= s@.len(),
    ensures
        r == find_colon_space(s@, from as int),
        from <= r <= s@.len(),
{
    let len = s.unicode_len();
    let mut i: usize = from;
    loop
        invariant
            from <= i <= len,
            len == s@.len(),
            find_colon_space(s@, from as int) == find_colon_space(s@, i as int),
        decreases len - i,
    {
        if len < 2 || i >= len - 1 {
            return len;
        }
        if s.get_char(i) == ':' && s.get_char(i + 1) == ' ' {
            return i;
        }
        i += 1;
    }
}

fn find_sep_exec(s: &str, from: usize) -> (r: usize)
    requires
        from <= s@.len(),
    ensures
        r == find_sep(s@, from as int),
        from <= r <= s@.len(),
{
    let len = s.unicode_len();
    let mut i: usize = from;
    while i < len
        invariant
            from <= i <= len,
            len == s@.len(),
            find_sep(s@, from as int) == find_sep(s@, i as int),
        decreases len - i,
    {
        let c = s.get_char(i);
        if c == ' ' || c == ':' {
            return i;
        }
        i += 1;
    }
    len
}

/// A ": " that was found leaves both its characters inside the text.
proof fn lemma_find_colon_space_found(s: Seq<char>, from: int)
    requires
        0 <= from,
    ensures
        find_colon_space(s, from) < s.len()
            ==> from <= find_colon_space(s, from) && find_colon_space(s, from) + 1 < s.len(),
    decreases s.len() - from,
{
    if 0 <= from && from + 1 < s.len() && !(s[from] == ':' && s[from + 1] == ' ') {
        lemma_find_colon_space_found(s, from + 1);
    }
}

/// Builds one chapter update from an anchor's inner text and relative link,
/// exactly as `sb_entry` describes; anchors it describes as dropped yield
/// nothing.
pub fn sb_entry_update(text: &str, href: &str, media: &Media) -> (r: Option<Update>)
    ensures
        r matches Some(u) ==> sb_entry(text@, href@, *media) == Some(u@),
        r is None ==> sb_entry(text@, href@, *media) is None,
{
    let len = text.unicode_len();
    let c1 = find_colon_space_exec(text, 0);
    if c1 >= len {
        return None;
    }
    let j1 = find_sep_exec(text, 0);
    if j1 >= len {
        return None;
    }
    proof {
        lemma_find_colon_space_found(text@, 0);
    }
    let c2 = find_colon_space_exec(text, c1 + 2);
    let j2 = find_sep_exec(text, j1 + 1);
    let id_text = text.substring_char(j1 + 1, j2);
    let id = match crate::num::parse_u64(id_text) {
        Some(v) => v,
        None => {
            return None;
        },
    };
    let title = text.substring_char(c1 + 2, c2);
    let mut link = String::new();
    link.append("https://www.sbnation.com/secret-base/21410129/20020");
    link.append(href);
    proof {
        assert(link@ =~= sb_base_spec() + href@);
    }
    Some(Update {
        id,
        title: title.to_owned(),
        link,
        media: *media,
        show_id: true,
    })
}

/// Newest-first ordering: ids never increase along the feed.
pub open spec fn sorted_desc(s: Seq<Update>) -> bool {
    forall|i: int, j: int| 0 <= i < j < s.len() ==> #[trigger] s[i].id >= #[trigger] s[j].id
}

/// The updates the anchors of a chapter index denote, as an unordered
/// collection: each anchor that converts contributes its update.
pub open spec fn sb_updates(entries: Seq<(String, String)>, media: Media) -> vstd::multiset::Multiset<UpdateView>
    decreases entries.len(),
{
    if entries.len() == 0 {
        vstd::multiset::Multiset::empty()
    } else {
        let rest = sb_updates(entries.drop_last(), media);
        match sb_entry(entries.last().0@, entries.last().1@, media) {
            None => rest,
            Some(u) => rest.insert(u),
        }
    }
}

/// The chapter feed's updates, newest (highest id) first.
pub struct SbFeed(pub Vec<Update>);

impl SbFeed {
    /// The fetched updates, newest first.
    pub fn updates(&self) -> (r: &[Update])
        ensures
            r@ == self.0@,
    {
        self.0.as_slice()
    }

    /// Builds the chapter feed from the extracted anchors: every anchor that
    /// converts is present exactly once, ordered newest first; anchors that
    /// do not convert are dropped.
    pub fn from_entries(media: &Media, entries: &Vec<(String, String)>) -> (r: SbFeed)
        ensures
            sorted_desc(r.0@),
            r.0@.map_values(|u: Update| u@).to_multiset() == sb_updates(entries@, *media),
    {
        let mut out: Vec<Update> = Vec::new();
        proof {
            broadcast use vstd::seq_lib::group_to_multiset_ensures;
            broadcast use vstd::multiset::group_multiset_axioms;
            assert(entries@.take(0) =~= Seq::<(String, String)>::empty());
            assert(out@.map_values(|u: Update| u@) =~= Seq::<UpdateView>::empty());
            assert(out@.map_values(|u: Update| u@).to_multiset()
                =~= vstd::multiset::Multiset::<UpdateView>::empty());
        }
        let mut i: usize = 0;
        while i < entries.len()
            invariant
                i <= entries@.len(),
                sorted_desc(out@),
                out@.map_values(|u: Update| u@).to_multiset()
                    == sb_updates(entries@.take(i as int), *media),
            decreases entries@.len() - i,
        {
            let ghost prefix = entries@.take(i as int);
            proof {
                assert(entries@.take(i + 1).drop_last() =~= prefix);
                assert(entries@.take(i + 1).last() == entries@[i as int]);
            }
            match sb_entry_update(entries[i].0.as_str(), entries[i].1.as_str(), media) {
                Some(u) => {
                    push_sorted(&mut out, u);
                },
                None => {
                },
            }
            i += 1;
        }
        proof {
            assert(entries@.take(entries@.len() as int) =~= entries@);
        }
        SbFeed(out)
    }
}

/// Inserts `u` behind every update with an id at least as large, keeping the
/// feed newest-first and adding exactly `u` to its contents.
#[verifier::rlimit(60)]
fn push_sorted(out: &mut Vec<Update>, u: Update)
    requires
        sorted_desc(old(out)@),
    ensures
        sorted_desc(final(out)@),
        final(out)@.map_values(|x: Update| x@).to_multiset()
            == old(out)@.map_values(|x: Update| x@).to_multiset().insert(u@),
{
    let len = out.len();
    let mut k: usize = 0;
    while k < len && out[k].id >= u.id
        invariant
            k <= len,
            len == out@.len(),
            forall|i: int| 0 <= i < k ==> #[trigger] out@[i].id >= u.id,
            sorted_desc(out@),
            out@ == old(out)@,
        decreases len - k,
    {
        k += 1;
    }
    let ghost before = out@;
    out.insert(k, u);
    proof {
        let s = before.map_values(|x: Update| x@);
        assert(out@ =~= before.insert(k as int, u));
        assert(out@.map_values(|x: Update| x@) =~= s.insert(k as int, u@));
        lemma_insert_multiset(s, k as int, u@);
        before.insert_ensures(k as int, u);
        assert forall|i: int, j: int| 0 <= i < j < out@.len()
            implies #[trigger] out@[i].id >= #[trigger] out@[j].id by {
            if j == k {
                assert(out@[j] == u);
            } else if j > k {
                assert(out@[j] == before[j - 1]);
                if i == k {
                    assert(before[k as int].id < u.id);
                    if j - 1 > k {
                        assert(before[k as int].id >= before[j - 1].id);
                    }
                } else if i < k {
                    assert(out@[i] == before[i]);
                } else {
                    assert(out@[i] == before[i - 1]);
                }
            } else {
                assert(out@[i] == before[i]);
                assert(out@[j] == before[j]);
            }
        }
    }
}

proof fn lemma_insert_multiset<A>(s: Seq<A>, k: int, v: A)
    requires
        0 <= k <= s.len(),
    ensures
        s.insert(k, v).to_multiset() == s.to_multiset().insert(v),
{
    broadcast use vstd::seq_lib::group_to_multiset_ensures;
    let left = s.subrange(0, k);
    let right = s.subrange(k, s.len() as int);
    lemma_multiset_commutative(left.push(v), right);
    lemma_multiset_commutative(left, right);
    assert(s =~= left + right);
    assert(left.push(v).to_multiset() =~= left.to_multiset().insert(v));
    assert(s.insert(k, v).to_multiset() =~= s.to_multiset().insert(v));
}

} // verus!
