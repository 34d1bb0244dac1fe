//! Turn items: the user-input items of a turn, their one-line rendering,
//! and the fallback item-sequence counter.

use vstd::prelude::*;
use vstd::string::StringExecFns;

use crate::text::{trim_text, trim_view};

verus! {

broadcast use vstd::string::group_string_axioms;

/// One part of a user's turn input.
#[allow(inconsistent_fields)]
pub enum InputItem {
    Text { text: String },
    Skill { name: String, path: String },
    LocalImage { path: String },
    Mention { path: String, name: Option<String> },
}

/// The rendering of one input part; `None` for text that is blank.
pub open spec fn rendered_part(item: InputItem) -> Option<Seq<char>> {
    match item {
        InputItem::Text { text } => {
            let t = trim_view(text@);
            if t.len() == 0 {
                None
            } else {
                Some(t)
            }
        },
        InputItem::Skill { name, path } => Some("[skill:"@ + name@ + " @ "@ + path@ + "]"@),
        InputItem::LocalImage { path } => Some("[image:"@ + path@ + "]"@),
        InputItem::Mention { path, name } => Some(
            "[mention:"@ + match name {
                Some(n) => n@,
                None => path@,
            } + "]"@,
        ),
    }
}

/// The rendered parts of `items` joined by newlines.
pub open spec fn rendered_items(items: Seq<InputItem>) -> Seq<char>
    decreases items.len(),
{
    if items.len() == 0 {
        Seq::empty()
    } else {
        let prev = rendered_items(items.drop_last());
        match rendered_part(items.last()) {
            None => prev,
            Some(part) => if prev.len() == 0 {
                part
            } else {
                prev + "\n"@ + part
            },
        }
    }
}

fn render_part(item: &InputItem) -> (part: Option<String>)
    ensures
        match part {
            Some(p) => rendered_part(*item) == Some(p@) && p@.len() > 0,
            None => rendered_part(*item) is None,
        },
{
    proof {
        reveal_strlit("[skill:");
        reveal_strlit(" @ ");
        reveal_strlit("]");
        reveal_strlit("[image:");
        reveal_strlit("[mention:");
    }
    match item {
        InputItem::Text { text } => {
            let trimmed = trim_text(text.as_str());
            if trimmed.as_str().is_empty() {
                None
            } else {
                Some(trimmed)
            }
        },
        InputItem::Skill { name, path } => {
            let mut part = String::from_str("[skill:");
            part.append(name.as_str());
            part.append(" @ ");
            part.append(path.as_str());
            part.append("]");
            Some(part)
        },
        InputItem::LocalImage { path } => {
            let mut part = String::from_str("[image:");
            part.append(path.as_str());
            part.append("]");
            Some(part)
        },
        InputItem::Mention { path, name } => {
            let mut part = String::from_str("[mention:");
            match name {
                Some(n) => part.append(n.as_str()),
                None => part.append(path.as_str()),
            }
            part.append("]");
            Some(part)
        },
    }
}

/// Renders turn input as display text: trimmed non-blank text parts and
/// bracketed markers for skills, images and mentions, one per line;
/// `None` when nothing renders.
pub fn render_input_items(input: &Vec<InputItem>) -> (rendered: Option<String>)
    ensures
        match rendered {
            Some(r) => r@ == rendered_items(input@) && r@.len() > 0,
            None => rendered_items(input@).len() == 0,
        },
{
    let mut rendered = String::new();
    let mut has_content = false;
    let mut i: usize = 0;
    while i < input.len()
        invariant
            i <= input.len(),
            rendered@ == rendered_items(input@.take(i as int)),
            has_content == (rendered@.len() > 0),
        decreases input.len() - i,
    {
        proof {
            assert(input@.take(i + 1).drop_last() =~= input@.take(i as int));
            assert(input@.take(i + 1).last() == input@[i as int]);
            reveal_strlit("\n");
        }
        match render_part(&input[i]) {
            Some(part) => {
                if has_content {
                    rendered.append("\n");
                }
                rendered.append(part.as_str());
                has_content = true;
            },
            None => {},
        }
        i += 1;
    }
    proof {
        assert(input@.take(input@.len() as int) =~= input@);
    }
    if has_content {
        Some(rendered)
    } else {
        None
    }
}

/// Counter of item sequence numbers handed out when a turn's event stream
/// is active but its inline state is missing. Starts at `1 << 32` so the
/// fallback numbers never collide with ordinary ones. The numbers are
/// distinct only within one counter: a server holds a single counter for
/// the whole process and passes it to every allocation.
pub struct FallbackItemSeq {
    next: u64,
}

impl FallbackItemSeq {
    /// A fresh counter at `1 << 32`.
    pub fn new() -> (counter: Self)
        ensures
            counter.peek() == fallback_start(),
    {
        FallbackItemSeq { next: 0x1_0000_0000u64 }
    }

    /// The number the next allocation returns.
    pub closed spec fn peek(&self) -> u64 {
        self.next
    }
}

/// The first fallback number, `1 << 32`.
pub open spec fn fallback_start() -> u64 {
    0x1_0000_0000u64
}

/// The counter value after one allocation (wrapping at the top).
pub open spec fn fallback_successor(p: u64) -> u64 {
    if p == u64::MAX {
        0
    } else {
        (p + 1) as u64
    }
}

/// The counter value after `n` allocations from a fresh counter: the
/// number the allocation after them returns.
pub open spec fn fallback_after(n: nat) -> u64
    decreases n,
{
    if n == 0 {
        fallback_start()
    } else {
        fallback_successor(fallback_after((n - 1) as nat))
    }
}

/// Hands out the next fallback item sequence number (wrapping on overflow).
pub fn next_fallback_item_seq(counter: &mut FallbackItemSeq) -> (item_seq: u64)
    ensures
        item_seq == old(counter).peek(),
        final(counter).peek() == fallback_successor(old(counter).peek()),
{
    let item_seq = counter.next;
    counter.next = counter.next.wrapping_add(1);
    item_seq
}

/// The numbers one counter hands out, for fewer than `2^64 - 2^32`
/// allocations: allocation `k` (from 0) returns `2^32 + k`, so every number
/// is at least `2^32`, above any number the actor allocates, and each is
/// larger than every number before it.
pub proof fn lemma_fallback_numbers_increase(n: nat)
    requires
        n < 0x1_0000_0000_0000_0000 - 0x1_0000_0000,
    ensures
        fallback_after(n) == 0x1_0000_0000 + n,
        forall|k: nat| k < n ==> 0x1_0000_0000 <= #[trigger] fallback_after(k) < fallback_after(n),
    decreases n,
{
    if n > 0 {
        lemma_fallback_numbers_increase((n - 1) as nat);
    }
}

/// Where an item's sequence number comes from.
#[derive(Debug, Clone, Copy, PartialEq, Eq, Structural)]
pub enum ItemSeqSource {
    /// The running turn's inline state.
    Inline,
    /// The fallback counter: a turn stream is active but has no inline
    /// state, and the session actor must not be waited on.
    Fallback,
    /// The session actor (no turn stream is active).
    Actor,
}

/// Picks where the next item sequence number comes from.
pub fn item_sequence_source(stream_active: bool, inline_present: bool) -> (source: ItemSeqSource)
    ensures
        source == if !stream_active {
            ItemSeqSource::Actor
        } else if inline_present {
            ItemSeqSource::Inline
        } else {
            ItemSeqSource::Fallback
        },
{
    if !stream_active {
        ItemSeqSource::Actor
    } else if inline_present {
        ItemSeqSource::Inline
    } else {
        ItemSeqSource::Fallback
    }
}

/// The sequence number the actor allocated, or 1 when the session is gone.
pub fn actor_item_seq_or_first(allocated: Option<u64>) -> (item_seq: u64)
    ensures
        item_seq == match allocated {
            Some(s) => s,
            None => 1,
        },
{
    match allocated {
        Some(s) => s,
        None => 1,
    }
}

} // verus!
