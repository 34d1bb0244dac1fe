//! Context compaction: which journal items survive a compaction verbatim,
//! the summary item that replaces the rest, and the lifecycle of the
//! in-turn compaction item.

use vstd::prelude::*;
use vstd::string::StringExecFns;

use crate::journal::{PersistedTurnItem, ToolOutput, TurnItem};
use crate::runtime::ServerRuntime;
use crate::session_state::TurnStatus;
use crate::text::{chars_of, chars_equal, concat_text};

verus! {

/// Who speaks a model message.
#[derive(Debug, Clone, Copy, PartialEq, Eq, Structural)]
pub enum MessageRole {
    System,
    User,
    Assistant,
}

/// One content block of a model message.
pub enum ContentBlock {
    /// Plain text.
    Text { text: String },
    /// Any other block (reasoning, tool use, tool result), by its JSON text.
    Other { payload: String },
}

/// A model message.
pub struct Message {
    pub role: MessageRole,
    pub content: Vec<ContentBlock>,
}

/// One item of the model-facing conversation. JSON values (tool inputs)
/// are held as their JSON text, and items are compared by that text: both
/// sides must be serialized the same canonical way (as one serializer
/// writes them) for equal values to compare equal.
#[allow(inconsistent_fields)]
pub enum ResponseItem {
    Message { message: Message },
    Reason { text: String },
    ToolCall { id: String, name: String, input: String },
    ToolCallOutput { tool_use_id: String, content: String, is_error: bool },
}

/// The value of a content block.
pub enum BlockView {
    Text(Seq<char>),
    Other(Seq<char>),
}

/// The value of a response item.
pub enum ResponseView {
    Message(MessageRole, Seq<BlockView>),
    Reason(Seq<char>),
    ToolCall(Seq<char>, Seq<char>, Seq<char>),
    ToolCallOutput(Seq<char>, Seq<char>, bool),
}

impl View for ContentBlock {
    type V = BlockView;

    open spec fn view(&self) -> BlockView {
        match self {
            ContentBlock::Text { text } => BlockView::Text(text@),
            ContentBlock::Other { payload } => BlockView::Other(payload@),
        }
    }
}

impl View for ResponseItem {
    type V = ResponseView;

    open spec fn view(&self) -> ResponseView {
        match self {
            ResponseItem::Message { message } => ResponseView::Message(message.role, block_views(message.content@)),
            ResponseItem::Reason { text } => ResponseView::Reason(text@),
            ResponseItem::ToolCall { id, name, input } => ResponseView::ToolCall(id@, name@, input@),
            ResponseItem::ToolCallOutput { tool_use_id, content, is_error } => ResponseView::ToolCallOutput(
                tool_use_id@,
                content@,
                *is_error,
            ),
        }
    }
}

/// The values of a list of response items.
pub open spec fn views_of(items: Seq<ResponseItem>) -> Seq<ResponseView> {
    items.map_values(|r: ResponseItem| r@)
}

/// The values of a list of content blocks.
pub open spec fn block_views(blocks: Seq<ContentBlock>) -> Seq<BlockView> {
    blocks.map_values(|b: ContentBlock| b@)
}

/// The item values of id-tagged entries.
pub open spec fn entry_views(entries: Seq<(u128, ResponseView)>) -> Seq<ResponseView> {
    entries.map_values(|entry: (u128, ResponseView)| entry.1)
}

/// The ids of id-tagged entries.
pub open spec fn entry_ids(entries: Seq<(u128, ResponseView)>) -> Seq<u128> {
    entries.map_values(|entry: (u128, ResponseView)| entry.0)
}

/// Id-tagged response items by their values.
pub open spec fn tagged_views(entries: Seq<(u128, ResponseItem)>) -> Seq<(u128, ResponseView)> {
    entries.map_values(|e: (u128, ResponseItem)| (e.0, e.1@))
}

/// A one-block text message.
pub open spec fn text_message(role: MessageRole, text: Seq<char>) -> ResponseView {
    ResponseView::Message(role, seq![BlockView::Text(text)])
}

/// The response items one journal item reads as, each with the journal
/// item's id: user text as a user message, assistant-side text as an
/// assistant message, tool calls and results as such, a command execution
/// as its call followed by its output; the rest reads as nothing.
pub open spec fn normalized_item(item: PersistedTurnItem) -> Seq<(u128, ResponseView)> {
    let id = item.item_id;
    if !item.prompt_visible {
        Seq::empty()
    } else {
        match item.turn_item {
            TurnItem::UserMessage { text } => seq![(id, text_message(MessageRole::User, text@))],
            TurnItem::SteerInput { text } => seq![(id, text_message(MessageRole::User, text@))],
            TurnItem::AgentMessage { text } => seq![(id, text_message(MessageRole::Assistant, text@))],
            TurnItem::Plan { text } => seq![(id, text_message(MessageRole::Assistant, text@))],
            TurnItem::WebSearch { text } => seq![(id, text_message(MessageRole::Assistant, text@))],
            TurnItem::ImageGeneration { text } => seq![(id, text_message(MessageRole::Assistant, text@))],
            TurnItem::ContextCompaction { text } => seq![(id, text_message(MessageRole::Assistant, text@))],
            TurnItem::HookPrompt { text } => seq![(id, text_message(MessageRole::Assistant, text@))],
            TurnItem::ToolCall { tool_call_id, tool_name, input } => seq![
                (id, ResponseView::ToolCall(tool_call_id@, tool_name@, input@)),
            ],
            TurnItem::ToolResult { tool_call_id, output, is_error } => seq![
                (id, ResponseView::ToolCallOutput(tool_call_id@, output.content(), is_error)),
            ],
            TurnItem::CommandExecution { tool_call_id, tool_name, input, output, is_error, .. } => seq![
                (id, ResponseView::ToolCall(tool_call_id@, tool_name@, input@)),
                (id, ResponseView::ToolCallOutput(tool_call_id@, output.content(), is_error)),
            ],
            _ => Seq::empty(),
        }
    }
}

/// The journal read as response items, in order.
pub open spec fn normalized_items(items: Seq<PersistedTurnItem>) -> Seq<(u128, ResponseView)>
    decreases items.len(),
{
    if items.len() == 0 {
        Seq::empty()
    } else {
        normalized_items(items.drop_last()) + normalized_item(items.last())
    }
}

/// The ids of the journal items a compaction kept verbatim. The compactor
/// returns a summary followed by the prompt-visible suffix it kept; when
/// that suffix is exactly the end of the normalized journal, the ids of
/// those entries are preserved, else none is.
pub open spec fn preserved_ids(items: Seq<PersistedTurnItem>, compacted: Seq<ResponseView>) -> Seq<u128> {
    let normalized = normalized_items(items);
    let preserved = if compacted.len() == 0 { Seq::empty() } else { compacted.skip(1) };
    if preserved.len() == 0 || normalized.len() < preserved.len() {
        Seq::empty()
    } else {
        let suffix = normalized.skip(normalized.len() - preserved.len());
        if entry_views(suffix) == preserved {
            entry_ids(suffix)
        } else {
            Seq::empty()
        }
    }
}

/// A prompt-visible steering message reads, like a user message, as one
/// user-role message holding its text, under its own item id; so when a
/// compaction keeps, after its summary, exactly that message at the end of
/// the journal, the steering message's id is preserved.
pub proof fn lemma_steer_input_reads_as_user_message(
    items: Seq<PersistedTurnItem>,
    summary: ResponseView,
)
    requires
        items.len() > 0,
        items.last().prompt_visible,
        items.last().turn_item is SteerInput,
    ensures
        ({
            let last = items.last();
            let text = last.turn_item->SteerInput_text@;
            let message = ResponseView::Message(MessageRole::User, seq![BlockView::Text(text)]);
            &&& normalized_item(last) == seq![(last.item_id, message)]
            &&& preserved_ids(items, seq![summary, message]) == seq![last.item_id]
        }),
{
    let last = items.last();
    let text = last.turn_item->SteerInput_text@;
    let message = ResponseView::Message(MessageRole::User, seq![BlockView::Text(text)]);
    let normalized = normalized_items(items);
    assert(items.drop_last() + seq![last] =~= items);
    assert(normalized == normalized_items(items.drop_last()) + seq![(last.item_id, message)]);
    let compacted = seq![summary, message];
    assert(compacted.skip(1) =~= seq![message]);
    let suffix = normalized.skip(normalized.len() - 1);
    assert(suffix =~= seq![(last.item_id, message)]);
    assert(entry_views(suffix) =~= seq![message]);
    assert(entry_ids(suffix) =~= seq![last.item_id]);
}

fn copy_text(s: &String) -> (copy: String)
    ensures
        copy@ == s@,
{
    s.clone()
}

fn tool_output_content(output: &ToolOutput) -> (content: String)
    ensures
        content@ == output.content(),
{
    match output {
        ToolOutput::Text(t) => t.clone(),
        ToolOutput::Json(j) => j.clone(),
    }
}

fn message_item(role: MessageRole, text: &String) -> (item: ResponseItem)
    ensures
        item@ == text_message(role, text@),
{
    let message = Message { role, content: vec![ContentBlock::Text { text: copy_text(text) }] };
    proof {
        assert(block_views(message.content@) =~= seq![BlockView::Text(text@)]);
    }
    ResponseItem::Message { message }
}

fn push_normalized(
    out: &mut Vec<(u128, ResponseItem)>,
    item: &PersistedTurnItem,
)
    ensures
        tagged_views(final(out)@) == tagged_views(old(out)@) + normalized_item(*item),
{
    let ghost before = out@;
    let id = item.item_id;
    if item.prompt_visible {
        match &item.turn_item {
            TurnItem::UserMessage { text } | TurnItem::SteerInput { text } => {
                out.push((id, message_item(MessageRole::User, text)));
            },
            TurnItem::AgentMessage { text }
            | TurnItem::Plan { text }
            | TurnItem::WebSearch { text }
            | TurnItem::ImageGeneration { text }
            | TurnItem::ContextCompaction { text }
            | TurnItem::HookPrompt { text } => {
                out.push((id, message_item(MessageRole::Assistant, text)));
            },
            TurnItem::ToolCall { tool_call_id, tool_name, input } => {
                out.push((id, ResponseItem::ToolCall {
                    id: copy_text(tool_call_id),
                    name: copy_text(tool_name),
                    input: copy_text(input),
                }));
            },
            TurnItem::ToolResult { tool_call_id, output, is_error } => {
                out.push((id, ResponseItem::ToolCallOutput {
                    tool_use_id: copy_text(tool_call_id),
                    content: tool_output_content(output),
                    is_error: *is_error,
                }));
            },
            TurnItem::CommandExecution { tool_call_id, tool_name, input, output, is_error, .. } => {
                out.push((id, ResponseItem::ToolCall {
                    id: copy_text(tool_call_id),
                    name: copy_text(tool_name),
                    input: copy_text(input),
                }));
                out.push((id, ResponseItem::ToolCallOutput {
                    tool_use_id: copy_text(tool_call_id),
                    content: tool_output_content(output),
                    is_error: *is_error,
                }));
            },
            _ => {},
        }
    }
    proof {
        assert(tagged_views(out@) =~= tagged_views(before) + normalized_item(*item));
    }
}

fn text_eq(a: &String, b: &String) -> (equal: bool)
    ensures
        equal == (a@ == b@),
{
    let ca = chars_of(a.as_str());
    let cb = chars_of(b.as_str());
    chars_equal(&ca, &cb)
}

fn block_eq(a: &ContentBlock, b: &ContentBlock) -> (equal: bool)
    ensures
        equal == (a@ == b@),
{
    match (a, b) {
        (ContentBlock::Text { text: x }, ContentBlock::Text { text: y }) => text_eq(x, y),
        (ContentBlock::Other { payload: x }, ContentBlock::Other { payload: y }) => text_eq(x, y),
        _ => false,
    }
}

/// Whether two response items are equal.
pub fn response_item_eq(a: &ResponseItem, b: &ResponseItem) -> (equal: bool)
    ensures
        equal == (a@ == b@),
{
    match (a, b) {
        (ResponseItem::Message { message: x }, ResponseItem::Message { message: y }) => {
            if x.role != y.role {
                return false;
            }
            if x.content.len() != y.content.len() {
                proof {
                    assert(block_views(x.content@).len() != block_views(y.content@).len());
                }
                return false;
            }
            let mut k: usize = 0;
            while k < x.content.len()
                invariant
                    k <= x.content@.len(),
                    x.content@.len() == y.content@.len(),
                    a@ == ResponseView::Message(x.role, block_views(x.content@)),
                    b@ == ResponseView::Message(y.role, block_views(y.content@)),
                    forall|j: int| 0 <= j < k ==> x.content@[j]@ == y.content@[j]@,
                decreases x.content.len() - k,
            {
                if !block_eq(&x.content[k], &y.content[k]) {
                    proof {
                        assert(block_views(x.content@)[k as int] != block_views(y.content@)[k as int]);
                    }
                    return false;
                }
                k += 1;
            }
            proof {
                assert(block_views(x.content@) =~= block_views(y.content@));
            }
            true
        },
        (ResponseItem::Reason { text: x }, ResponseItem::Reason { text: y }) => text_eq(x, y),
        (ResponseItem::ToolCall { id: i1, name: n1, input: p1 }, ResponseItem::ToolCall { id: i2, name: n2, input: p2 }) => {
            text_eq(i1, i2) && text_eq(n1, n2) && text_eq(p1, p2)
        },
        (
            ResponseItem::ToolCallOutput { tool_use_id: i1, content: c1, is_error: e1 },
            ResponseItem::ToolCallOutput { tool_use_id: i2, content: c2, is_error: e2 },
        ) => text_eq(i1, i2) && text_eq(c1, c2) && *e1 == *e2,
        _ => false,
    }
}

impl ServerRuntime {
    /// The ids of the journal items that a compaction kept verbatim (one id
    /// per kept response item, so a command execution that survives whole
    /// appears twice). Tool inputs are matched by their JSON text, so the
    /// journal and the compacted items must carry it in one canonical
    /// serialization.
    pub fn preserved_item_ids_from_compacted(
        persisted_turn_items: &Vec<PersistedTurnItem>,
        compacted_items: &Vec<ResponseItem>,
    ) -> (ids: Vec<u128>)
        ensures
            ids@ == preserved_ids(persisted_turn_items@, views_of(compacted_items@)),
    {
        let ghost items = persisted_turn_items@;
        let ghost compacted = views_of(compacted_items@);
        let mut normalized: Vec<(u128, ResponseItem)> = Vec::new();
        let mut i: usize = 0;
        while i < persisted_turn_items.len()
            invariant
                i <= items.len(),
                items == persisted_turn_items@,
                tagged_views(normalized@) == normalized_items(items.take(i as int)),
            decreases persisted_turn_items.len() - i,
        {
            push_normalized(&mut normalized, &persisted_turn_items[i]);
            proof {
                assert(items.take(i + 1).drop_last() =~= items.take(i as int));
            }
            i += 1;
        }
        proof {
            assert(items.take(items.len() as int) =~= items);
        }
        let ghost nv = tagged_views(normalized@);
        if compacted_items.len() <= 1 {
            proof {
                assert(compacted.len() == 0 || compacted.skip(1).len() == 0);
            }
            return Vec::new();
        }
        let preserved_len = compacted_items.len() - 1;
        if normalized.len() < preserved_len {
            return Vec::new();
        }
        let n = normalized.len();
        let start = n - preserved_len;
        let ghost preserved = compacted.skip(1);
        let ghost suffix = nv.skip(start as int);
        let mut k: usize = 0;
        while k < preserved_len
            invariant
                k <= preserved_len,
                preserved_len == compacted_items@.len() - 1,
                start + preserved_len == n,
                n == normalized@.len(),
                nv == tagged_views(normalized@),
                compacted == views_of(compacted_items@),
                preserved == compacted.skip(1),
                preserved.len() == preserved_len,
                nv == normalized_items(persisted_turn_items@),
                suffix == nv.skip(start as int),
                forall|j: int| 0 <= j < k ==> suffix[j].1 == preserved[j],
            decreases preserved_len - k,
        {
            if !response_item_eq(&normalized[start + k].1, &compacted_items[k + 1]) {
                proof {
                    assert(entry_views(suffix)[k as int] != preserved[k as int]);
                }
                return Vec::new();
            }
            k += 1;
        }
        proof {
            assert(entry_views(suffix) =~= preserved);
        }
        let mut ids: Vec<u128> = Vec::new();
        let mut m: usize = start;
        while m < normalized.len()
            invariant
                start <= m <= normalized@.len(),
                nv == tagged_views(normalized@),
                ids@ == entry_ids(nv.subrange(start as int, m as int)),
            decreases normalized.len() - m,
        {
            ids.push(normalized[m].0);
            proof {
                assert(entry_ids(nv.subrange(start as int, m + 1))
                    =~= entry_ids(nv.subrange(start as int, m as int)).push(normalized@[m as int].0));
            }
            m += 1;
        }
        proof {
            assert(nv.subrange(start as int, nv.len() as int) =~= suffix);
        }
        ids
    }
}

/// The text of the first text block among `blocks`.
pub open spec fn first_text(blocks: Seq<BlockView>) -> Option<Seq<char>>
    decreases blocks.len(),
{
    if blocks.len() == 0 {
        None
    } else {
        match blocks[0] {
            BlockView::Text(t) => Some(t),
            BlockView::Other(_) => first_text(blocks.skip(1)),
        }
    }
}

/// The summary a compaction produced: the first text block of its leading
/// message, or the text of its leading reasoning item; empty otherwise.
pub open spec fn summary_text(compacted: Seq<ResponseView>) -> Seq<char> {
    if compacted.len() == 0 {
        Seq::empty()
    } else {
        match compacted[0] {
            ResponseView::Message(_, blocks) => match first_text(blocks) {
                Some(t) => t,
                None => Seq::empty(),
            },
            ResponseView::Reason(t) => t,
            _ => Seq::empty(),
        }
    }
}

proof fn lemma_first_text_skips_other(blocks: Seq<BlockView>, k: int)
    requires
        0 <= k < blocks.len(),
        blocks[k] is Other,
    ensures
        first_text(blocks.skip(k)) == first_text(blocks.skip(k + 1)),
{
    assert(blocks.skip(k).skip(1) =~= blocks.skip(k + 1));
}

impl ServerRuntime {
    /// The journal item that stands for the compacted part of the
    /// conversation: a context-compaction item carrying the summary.
    pub fn summary_turn_item_from_compacted(compacted_items: &Vec<ResponseItem>) -> (item: TurnItem)
        ensures
            item matches TurnItem::ContextCompaction { text } && text@ == summary_text(views_of(compacted_items@)),
    {
        if compacted_items.len() == 0 {
            return TurnItem::ContextCompaction { text: String::new() };
        }
        let text = match &compacted_items[0] {
            ResponseItem::Message { message } => {
                let mut found: Option<String> = None;
                let mut k: usize = 0;
                let ghost blocks = block_views(message.content@);
                proof {
                    assert(blocks.skip(0) =~= blocks);
                }
                while k < message.content.len() && found.is_none()
                    invariant
                        k <= message.content@.len(),
                        blocks == block_views(message.content@),
                        found is None ==> first_text(blocks) == first_text(blocks.skip(k as int)),
                        found matches Some(t) ==> first_text(blocks) == Some(t@),
                    decreases message.content@.len() - k, if found is None { 1int } else { 0int },
                {
                    match &message.content[k] {
                        ContentBlock::Text { text } => {
                            proof {
                                assert(blocks.skip(k as int)[0] == blocks[k as int]);
                            }
                            found = Some(text.clone());
                        },
                        ContentBlock::Other { .. } => {
                            proof {
                                lemma_first_text_skips_other(blocks, k as int);
                            }
                            k += 1;
                        },
                    }
                }
                match found {
                    Some(t) => t,
                    None => {
                        proof {
                            assert(blocks.skip(k as int).len() == 0);
                        }
                        String::new()
                    },
                }
            },
            ResponseItem::Reason { text } => text.clone(),
            _ => String::new(),
        };
        TurnItem::ContextCompaction { text }
    }
}

/// The summary of a started compaction item.
pub open spec fn compaction_started_summary() -> Seq<char> {
    "Compaction started"@
}

/// The summary of a completed compaction item.
pub open spec fn compaction_completed_summary() -> Seq<char> {
    "Context compacted"@
}

/// The summary of a failed compaction item.
pub open spec fn compaction_failed_summary(message: Seq<char>) -> Seq<char> {
    "Compaction failed: "@ + message
}

/// The failure message when a compaction restarts while one is open.
pub open spec fn compaction_restarted_message() -> Seq<char> {
    "compaction restarted before the previous lifecycle completed"@
}

/// The failure message when a turn ends with a compaction still open.
pub open spec fn compaction_abandoned_message() -> Seq<char> {
    "compaction lifecycle ended before completion"@
}

/// What the compaction lifecycle asks its caller to announce.
#[allow(inconsistent_fields)]
pub enum CompactionNotice {
    /// The compaction item started.
    ItemStarted { item_id: u128, summary: String },
    /// The compaction item completed (after the compacted items were
    /// persisted).
    ItemCompleted { item_id: u128, summary: String },
    /// The compaction item ended failed.
    ItemFailed { item_id: u128, summary: String },
    /// The session-level compaction failure.
    SessionCompactionFailed { message: String },
}

/// The value of a notice.
pub enum NoticeView {
    ItemStarted(u128, Seq<char>),
    ItemCompleted(u128, Seq<char>),
    ItemFailed(u128, Seq<char>),
    SessionCompactionFailed(Seq<char>),
}

impl View for CompactionNotice {
    type V = NoticeView;

    open spec fn view(&self) -> NoticeView {
        match self {
            CompactionNotice::ItemStarted { item_id, summary } => NoticeView::ItemStarted(*item_id, summary@),
            CompactionNotice::ItemCompleted { item_id, summary } => NoticeView::ItemCompleted(*item_id, summary@),
            CompactionNotice::ItemFailed { item_id, summary } => NoticeView::ItemFailed(*item_id, summary@),
            CompactionNotice::SessionCompactionFailed { message } => NoticeView::SessionCompactionFailed(message@),
        }
    }
}

/// The values of a list of notices.
pub open spec fn notice_views(notices: Seq<CompactionNotice>) -> Seq<NoticeView> {
    notices.map_values(|n: CompactionNotice| n@)
}

/// The notices of a failure while `open` is the open item, if any: the
/// item ends failed and the session hears of it; with no item open only
/// the session hears of it.
pub open spec fn failure_notices(open: Option<u128>, message: Seq<char>) -> Seq<NoticeView> {
    match open {
        Some(id) => seq![
            NoticeView::ItemFailed(id, compaction_failed_summary(message)),
            NoticeView::SessionCompactionFailed(message),
        ],
        None => seq![NoticeView::SessionCompactionFailed(message)],
    }
}

/// The in-turn compaction item: open from its start until it completes or
/// fails.
pub struct ContextCompactionLifecycle {
    item_id: Option<u128>,
}

impl ContextCompactionLifecycle {
    /// The open compaction item, if any.
    pub closed spec fn open_item(&self) -> Option<u128> {
        self.item_id
    }

    /// A lifecycle with no item open.
    pub fn new() -> (lifecycle: Self)
        ensures
            lifecycle.open_item() is None,
    {
        ContextCompactionLifecycle { item_id: None }
    }

    /// The open compaction item, if any.
    pub fn current_item(&self) -> (item_id: Option<u128>)
        ensures
            item_id == self.open_item(),
    {
        self.item_id
    }

    /// Ends the open item, if any, as failed with `message`; the session
    /// hears of the failure either way.
    pub fn fail(&mut self, message: String) -> (notices: Vec<CompactionNotice>)
        ensures
            final(self).open_item() is None,
            notice_views(notices@) == failure_notices(old(self).open_item(), message@),
            (final(self).open_item(), notice_views(notices@))
                == lifecycle_step(old(self).open_item(), CompactionEvent::Fail(message@)),
    {
        let mut notices: Vec<CompactionNotice> = Vec::new();
        match self.item_id {
            Some(item_id) => {
                proof {
                    reveal_strlit("Compaction failed: ");
                }
                let summary = concat_text("Compaction failed: ", message.as_str());
                notices.push(CompactionNotice::ItemFailed { item_id, summary });
            },
            None => {},
        }
        let ghost open = self.item_id;
        notices.push(CompactionNotice::SessionCompactionFailed { message });
        self.item_id = None;
        proof {
            assert(notice_views(notices@) =~= failure_notices(open, message@));
        }
        notices
    }

    /// Opens a compaction item with the fresh id `item_id`; an item still
    /// open first ends failed.
    pub fn start(&mut self, item_id: u128) -> (notices: Vec<CompactionNotice>)
        ensures
            final(self).open_item() == Some(item_id),
            notice_views(notices@) == (match old(self).open_item() {
                Some(_) => failure_notices(old(self).open_item(), compaction_restarted_message()),
                None => Seq::empty(),
            }).push(NoticeView::ItemStarted(item_id, compaction_started_summary())),
            (final(self).open_item(), notice_views(notices@))
                == lifecycle_step(old(self).open_item(), CompactionEvent::Start(item_id)),
    {
        let mut notices: Vec<CompactionNotice> = Vec::new();
        if self.item_id.is_some() {
            proof {
                reveal_strlit("compaction restarted before the previous lifecycle completed");
            }
            notices = self.fail(String::from_str("compaction restarted before the previous lifecycle completed"));
        }
        let ghost before = notices@;
        proof {
            reveal_strlit("Compaction started");
        }
        notices.push(CompactionNotice::ItemStarted { item_id, summary: String::from_str("Compaction started") });
        self.item_id = Some(item_id);
        proof {
            assert(notice_views(notices@) =~= notice_views(before).push(NoticeView::ItemStarted(item_id, compaction_started_summary())));
        }
        notices
    }

    /// Completes the open item, if any: the caller persists the compacted
    /// items and announces the completion this returns.
    pub fn complete(&mut self) -> (notice: Option<CompactionNotice>)
        ensures
            final(self).open_item() is None,
            match old(self).open_item() {
                Some(id) => notice is Some && notice->0@ == NoticeView::ItemCompleted(id, compaction_completed_summary()),
                None => notice is None,
            },
            (final(self).open_item(), match notice {
                Some(n) => seq![n@],
                None => Seq::empty(),
            }) == lifecycle_step(old(self).open_item(), CompactionEvent::Complete),
    {
        match self.item_id {
            Some(item_id) => {
                self.item_id = None;
                proof {
                    reveal_strlit("Context compacted");
                }
                Some(CompactionNotice::ItemCompleted { item_id, summary: String::from_str("Context compacted") })
            },
            None => None,
        }
    }

    /// When a turn ends: an item still open ends failed.
    pub fn close_if_open(&mut self) -> (notices: Vec<CompactionNotice>)
        ensures
            final(self).open_item() is None,
            notice_views(notices@) == match old(self).open_item() {
                Some(_) => failure_notices(old(self).open_item(), compaction_abandoned_message()),
                None => Seq::empty(),
            },
            (final(self).open_item(), notice_views(notices@))
                == lifecycle_step(old(self).open_item(), CompactionEvent::Close),
    {
        if self.item_id.is_some() {
            proof {
                reveal_strlit("compaction lifecycle ended before completion");
            }
            self.fail(String::from_str("compaction lifecycle ended before completion"))
        } else {
            let notices: Vec<CompactionNotice> = Vec::new();
            proof {
                assert(notice_views(notices@) =~= Seq::<NoticeView>::empty());
            }
            notices
        }
    }
}

/// What drives the compaction lifecycle.
pub enum CompactionEvent {
    /// A compaction starts with a fresh item id.
    Start(u128),
    /// The compaction finished and its items were persisted.
    Complete,
    /// The compaction failed with a message.
    Fail(Seq<char>),
    /// The turn ends.
    Close,
}

/// One lifecycle transition: the open item after the event, and the
/// notices the event produces.
pub open spec fn lifecycle_step(open: Option<u128>, event: CompactionEvent) -> (Option<u128>, Seq<NoticeView>) {
    match event {
        CompactionEvent::Start(id) => (
            Some(id),
            (match open {
                Some(_) => failure_notices(open, compaction_restarted_message()),
                None => Seq::empty(),
            }).push(NoticeView::ItemStarted(id, compaction_started_summary())),
        ),
        CompactionEvent::Complete => (None, match open {
            Some(id) => seq![NoticeView::ItemCompleted(id, compaction_completed_summary())],
            None => Seq::empty(),
        }),
        CompactionEvent::Fail(message) => (None, failure_notices(open, message)),
        CompactionEvent::Close => (None, match open {
            Some(_) => failure_notices(open, compaction_abandoned_message()),
            None => Seq::empty(),
        }),
    }
}

/// A run of events from a closed lifecycle: the open item at the end and
/// every notice produced, in order.
pub open spec fn lifecycle_run(events: Seq<CompactionEvent>) -> (Option<u128>, Seq<NoticeView>)
    decreases events.len(),
{
    if events.len() == 0 {
        (None, Seq::empty())
    } else {
        let before = lifecycle_run(events.drop_last());
        let step = lifecycle_step(before.0, events.last());
        (step.0, before.1 + step.1)
    }
}

/// How many notices start item `id`.
pub open spec fn started_count(notices: Seq<NoticeView>, id: u128) -> nat
    decreases notices.len(),
{
    if notices.len() == 0 {
        0
    } else {
        started_count(notices.drop_last(), id) + match notices.last() {
            NoticeView::ItemStarted(i, _) => if i == id { 1nat } else { 0nat },
            _ => 0nat,
        }
    }
}

/// How many notices end item `id` (completed or failed).
pub open spec fn ended_count(notices: Seq<NoticeView>, id: u128) -> nat
    decreases notices.len(),
{
    if notices.len() == 0 {
        0
    } else {
        ended_count(notices.drop_last(), id) + match notices.last() {
            NoticeView::ItemCompleted(i, _) => if i == id { 1nat } else { 0nat },
            NoticeView::ItemFailed(i, _) => if i == id { 1nat } else { 0nat },
            _ => 0nat,
        }
    }
}

/// How many events start item `id`.
pub open spec fn start_event_count(events: Seq<CompactionEvent>, id: u128) -> nat
    decreases events.len(),
{
    if events.len() == 0 {
        0
    } else {
        start_event_count(events.drop_last(), id) + match events.last() {
            CompactionEvent::Start(i) => if i == id { 1nat } else { 0nat },
            _ => 0nat,
        }
    }
}

proof fn lemma_counts_add(a: Seq<NoticeView>, b: Seq<NoticeView>, id: u128)
    ensures
        started_count(a + b, id) == started_count(a, id) + started_count(b, id),
        ended_count(a + b, id) == ended_count(a, id) + ended_count(b, id),
    decreases b.len(),
{
    if b.len() == 0 {
        assert(a + b =~= a);
    } else {
        lemma_counts_add(a, b.drop_last(), id);
        assert((a + b).drop_last() =~= a + b.drop_last());
    }
}

proof fn lemma_run_counts(events: Seq<CompactionEvent>, id: u128)
    ensures
        started_count(lifecycle_run(events).1, id) == start_event_count(events, id),
        started_count(lifecycle_run(events).1, id) == ended_count(lifecycle_run(events).1, id)
            + if lifecycle_run(events).0 == Some(id) { 1nat } else { 0nat }
            || start_event_count(events, id) > 1,
    decreases events.len(),
{
    if events.len() > 0 {
        let prefix = events.drop_last();
        lemma_run_counts(prefix, id);
        let before = lifecycle_run(prefix);
        let step = lifecycle_step(before.0, events.last());
        lemma_counts_add(before.1, step.1, id);
        reveal_with_fuel(started_count, 4);
        reveal_with_fuel(ended_count, 4);
        match events.last() {
            CompactionEvent::Start(x) => {
                match before.0 {
                    Some(y) => {
                        let failed = failure_notices(before.0, compaction_restarted_message());
                        assert(step.1.drop_last() =~= failed);
                        assert(failed.drop_last() =~= seq![NoticeView::ItemFailed(y, compaction_failed_summary(compaction_restarted_message()))]);
                        assert(failed.drop_last().drop_last() =~= Seq::<NoticeView>::empty());
                    },
                    None => {
                        assert(step.1.drop_last() =~= Seq::<NoticeView>::empty());
                    },
                }
            },
            CompactionEvent::Complete => {
                if let Some(y) = before.0 {
                    assert(step.1.drop_last() =~= Seq::<NoticeView>::empty());
                }
            },
            CompactionEvent::Fail(m) => {
                match before.0 {
                    Some(y) => {
                        assert(step.1.drop_last().drop_last() =~= Seq::<NoticeView>::empty());
                    },
                    None => {
                        assert(step.1.drop_last() =~= Seq::<NoticeView>::empty());
                    },
                }
            },
            CompactionEvent::Close => {
                if let Some(y) = before.0 {
                    assert(step.1.drop_last().drop_last() =~= Seq::<NoticeView>::empty());
                }
            },
        }
    }
}

/// Every compaction item that starts ends exactly once: when item ids are
/// fresh, a run of lifecycle events followed by the turn's end announces,
/// for every item, as many ends (completed or failed) as starts, and at
/// most one of each.
pub proof fn lemma_every_started_item_ends_once(events: Seq<CompactionEvent>, id: u128)
    requires
        forall|x: u128| start_event_count(events, x) <= 1,
    ensures
        lifecycle_run(events.push(CompactionEvent::Close)).0 is None,
        started_count(lifecycle_run(events.push(CompactionEvent::Close)).1, id)
            == ended_count(lifecycle_run(events.push(CompactionEvent::Close)).1, id),
        ended_count(lifecycle_run(events.push(CompactionEvent::Close)).1, id) <= 1,
{
    let all = events.push(CompactionEvent::Close);
    assert(all.drop_last() =~= events);
    assert(start_event_count(all, id) == start_event_count(events, id));
    assert(start_event_count(events, id) <= 1);
    lemma_run_counts(all, id);
}

/// How a manual compaction turn ends without replacing history.
pub enum CompactionTurnOutcome {
    /// The compactor found nothing to compact.
    Skipped,
    /// The compaction failed with a message.
    Failed { message: String },
    /// The compaction was canceled.
    Canceled,
}

/// What the compactor answered.
pub enum CompactionResult {
    /// History is replaced by the compacted items.
    Replaced,
    /// Nothing was compacted.
    Skipped,
    /// The compaction was canceled while it ran.
    Canceled,
    /// The compaction failed; the message is the error's text.
    Error { message: String },
}

/// The terminal outcome a compaction result leads to, or `None` when the
/// replacement is to be applied: a result that arrives after cancellation
/// counts as canceled.
pub open spec fn compaction_outcome_spec(result: CompactionResult, cancel_requested: bool) -> Option<(u8, Seq<char>)> {
    match result {
        CompactionResult::Canceled => Some((2, Seq::empty())),
        CompactionResult::Replaced => if cancel_requested { Some((2, Seq::empty())) } else { None },
        CompactionResult::Skipped => Some((0, Seq::empty())),
        CompactionResult::Error { message } => Some((1, "compaction failed: "@ + message@)),
    }
}

/// The tag and message of an outcome (skipped 0, failed 1, canceled 2).
pub open spec fn outcome_tag(outcome: CompactionTurnOutcome) -> (u8, Seq<char>) {
    match outcome {
        CompactionTurnOutcome::Skipped => (0, Seq::empty()),
        CompactionTurnOutcome::Failed { message } => (1, message@),
        CompactionTurnOutcome::Canceled => (2, Seq::empty()),
    }
}

/// Decides how a manual compaction turn goes on after the compactor
/// answered.
pub fn compaction_turn_outcome(result: &CompactionResult, cancel_requested: bool) -> (outcome: Option<CompactionTurnOutcome>)
    ensures
        match outcome {
            Some(o) => compaction_outcome_spec(*result, cancel_requested) == Some(outcome_tag(o)),
            None => compaction_outcome_spec(*result, cancel_requested) is None,
        },
{
    match result {
        CompactionResult::Canceled => Some(CompactionTurnOutcome::Canceled),
        CompactionResult::Replaced => {
            if cancel_requested {
                Some(CompactionTurnOutcome::Canceled)
            } else {
                None
            }
        },
        CompactionResult::Skipped => Some(CompactionTurnOutcome::Skipped),
        CompactionResult::Error { message } => {
            proof {
                reveal_strlit("compaction failed: ");
            }
            Some(CompactionTurnOutcome::Failed { message: concat_text("compaction failed: ", message.as_str()) })
        },
    }
}

/// The status a manual compaction turn ends in.
pub fn compaction_terminal_status(outcome: &CompactionTurnOutcome) -> (status: TurnStatus)
    ensures
        status == match *outcome {
            CompactionTurnOutcome::Skipped => TurnStatus::Completed,
            CompactionTurnOutcome::Failed { .. } => TurnStatus::Failed,
            CompactionTurnOutcome::Canceled => TurnStatus::Interrupted,
        },
{
    match outcome {
        CompactionTurnOutcome::Skipped => TurnStatus::Completed,
        CompactionTurnOutcome::Failed { .. } => TurnStatus::Failed,
        CompactionTurnOutcome::Canceled => TurnStatus::Interrupted,
    }
}

/// What ending a manual compaction turn announces.
pub enum CompactionTurnNotice {
    ContextUsageUpdated,
    SessionCompactionCompleted,
    SessionCompactionFailed { message: String },
    TurnFailed,
    TurnInterrupted,
    TurnCompleted,
    SessionIdle,
}

/// The value of a turn notice.
pub enum TurnNoticeView {
    ContextUsageUpdated,
    SessionCompactionCompleted,
    SessionCompactionFailed(Seq<char>),
    TurnFailed,
    TurnInterrupted,
    TurnCompleted,
    SessionIdle,
}

impl View for CompactionTurnNotice {
    type V = TurnNoticeView;

    open spec fn view(&self) -> TurnNoticeView {
        match self {
            CompactionTurnNotice::ContextUsageUpdated => TurnNoticeView::ContextUsageUpdated,
            CompactionTurnNotice::SessionCompactionCompleted => TurnNoticeView::SessionCompactionCompleted,
            CompactionTurnNotice::SessionCompactionFailed { message } => TurnNoticeView::SessionCompactionFailed(message@),
            CompactionTurnNotice::TurnFailed => TurnNoticeView::TurnFailed,
            CompactionTurnNotice::TurnInterrupted => TurnNoticeView::TurnInterrupted,
            CompactionTurnNotice::TurnCompleted => TurnNoticeView::TurnCompleted,
            CompactionTurnNotice::SessionIdle => TurnNoticeView::SessionIdle,
        }
    }
}

/// The values of a list of turn notices.
pub open spec fn turn_notice_views(notices: Seq<CompactionTurnNotice>) -> Seq<TurnNoticeView> {
    notices.map_values(|n: CompactionTurnNotice| n@)
}

/// The announcements of a compaction that completed (with a replacement,
/// or skipped with the session summary at hand): the context usage when
/// an occupancy is known, the compaction's completion, the turn's
/// completion, and the session going idle.
pub open spec fn completed_compaction_notices(has_occupancy: bool) -> Seq<TurnNoticeView> {
    (if has_occupancy { seq![TurnNoticeView::ContextUsageUpdated] } else { Seq::empty() })
        + seq![TurnNoticeView::SessionCompactionCompleted, TurnNoticeView::TurnCompleted, TurnNoticeView::SessionIdle]
}

/// The announcements that end a manual compaction turn with `outcome`.
pub open spec fn terminal_notices(outcome: CompactionTurnOutcome, summary_available: bool, has_occupancy: bool) -> Seq<TurnNoticeView> {
    match outcome {
        CompactionTurnOutcome::Skipped => if summary_available {
            completed_compaction_notices(has_occupancy)
        } else {
            seq![TurnNoticeView::TurnCompleted, TurnNoticeView::SessionIdle]
        },
        CompactionTurnOutcome::Failed { message } => seq![
            TurnNoticeView::SessionCompactionFailed(message@),
            TurnNoticeView::TurnFailed,
            TurnNoticeView::TurnCompleted,
            TurnNoticeView::SessionIdle,
        ],
        CompactionTurnOutcome::Canceled => seq![
            TurnNoticeView::SessionCompactionFailed("compaction canceled"@),
            TurnNoticeView::TurnInterrupted,
            TurnNoticeView::TurnCompleted,
            TurnNoticeView::SessionIdle,
        ],
    }
}

/// The announcements of a compaction that completed.
pub fn completed_compaction_turn_notices(has_occupancy: bool) -> (notices: Vec<CompactionTurnNotice>)
    ensures
        turn_notice_views(notices@) == completed_compaction_notices(has_occupancy),
{
    let mut notices: Vec<CompactionTurnNotice> = Vec::new();
    if has_occupancy {
        notices.push(CompactionTurnNotice::ContextUsageUpdated);
    }
    notices.push(CompactionTurnNotice::SessionCompactionCompleted);
    notices.push(CompactionTurnNotice::TurnCompleted);
    notices.push(CompactionTurnNotice::SessionIdle);
    proof {
        assert(turn_notice_views(notices@) =~= completed_compaction_notices(has_occupancy));
    }
    notices
}

/// The announcements that end a manual compaction turn that still owned
/// the session's active turn: the caller makes them only after its claim
/// of the turn (`SessionActorState::clear_active_turn_if_matches`) won; an
/// interrupt that claimed it first already announced the end.
pub fn compaction_terminal_notices(
    outcome: CompactionTurnOutcome,
    summary_available: bool,
    has_occupancy: bool,
) -> (notices: Vec<CompactionTurnNotice>)
    ensures
        turn_notice_views(notices@) == terminal_notices(outcome, summary_available, has_occupancy),
{
    let ghost o = outcome;
    let notices = match outcome {
        CompactionTurnOutcome::Skipped => {
            if summary_available {
                return completed_compaction_turn_notices(has_occupancy);
            }
            vec![CompactionTurnNotice::TurnCompleted, CompactionTurnNotice::SessionIdle]
        },
        CompactionTurnOutcome::Failed { message } => vec![
            CompactionTurnNotice::SessionCompactionFailed { message },
            CompactionTurnNotice::TurnFailed,
            CompactionTurnNotice::TurnCompleted,
            CompactionTurnNotice::SessionIdle,
        ],
        CompactionTurnOutcome::Canceled => {
            proof {
                reveal_strlit("compaction canceled");
            }
            vec![
                CompactionTurnNotice::SessionCompactionFailed { message: String::from_str("compaction canceled") },
                CompactionTurnNotice::TurnInterrupted,
                CompactionTurnNotice::TurnCompleted,
                CompactionTurnNotice::SessionIdle,
            ]
        },
    };
    proof {
        assert(turn_notice_views(notices@) =~= terminal_notices(o, summary_available, has_occupancy));
    }
    notices
}

/// The messages among the compacted items, in order: what the session's
/// prompt is replaced with.
pub fn compacted_messages(compacted_items: Vec<ResponseItem>) -> (messages: Vec<Message>)
    ensures
        messages@.len() <= compacted_items@.len(),
        views_of(compacted_items@).filter(|v: ResponseView| v is Message)
            == messages@.map_values(|m: Message| ResponseView::Message(m.role, block_views(m.content@))),
{
    let ghost items = compacted_items@;
    let mut messages: Vec<Message> = Vec::new();
    let mut rest = compacted_items;
    let ghost mut taken: int = 0;
    proof {
        assert(rest@ =~= items.skip(0));
    }
    while rest.len() > 0
        invariant
            0 <= taken <= items.len(),
            rest@ == items.skip(taken),
            messages@.len() <= taken,
            views_of(items.take(taken)).filter(|v: ResponseView| v is Message)
                == messages@.map_values(|m: Message| ResponseView::Message(m.role, block_views(m.content@))),
        decreases rest.len(),
    {
        let item = rest.remove(0);
        proof {
            assert(item == items[taken]);
            assert(rest@ =~= items.skip(taken + 1));
            let t0 = views_of(items.take(taken));
            let t1 = views_of(items.take(taken + 1));
            assert(t1 =~= t0.push(item@));
            t0.lemma_filter_push(item@, |v: ResponseView| v is Message);
        }
        match item {
            ResponseItem::Message { message } => {
                let ghost before = messages@;
                messages.push(message);
                proof {
                    assert(messages@.map_values(|m: Message| ResponseView::Message(m.role, block_views(m.content@)))
                        =~= before.map_values(|m: Message| ResponseView::Message(m.role, block_views(m.content@)))
                            .push(ResponseView::Message(message.role, block_views(message.content@))));
                }
            },
            _ => {},
        }
        proof {
            taken = taken + 1;
        }
    }
    proof {
        assert(items.take(items.len() as int) =~= items);
    }
    messages
}

/// The sequence number of the next turn: one past the latest turn's, or 1
/// for a session without turns.
pub fn next_turn_sequence(latest_sequence: Option<u64>) -> (sequence: u64)
    requires
        latest_sequence matches Some(s) ==> s < u64::MAX,
    ensures
        sequence == match latest_sequence {
            Some(s) => s + 1,
            None => 1,
        },
{
    match latest_sequence {
        Some(s) => s + 1,
        None => 1,
    }
}

} // verus!
