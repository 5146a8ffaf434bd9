//! Transcription tasks as stored in the task table, and their status values.
use vstd::prelude::*;
use vstd::string::*;
use vstd::arithmetic::power::pow;
use vstd::arithmetic::div_mod::{lemma_div_denominator, lemma_fundamental_div_mod, lemma_basic_div};
use crate::text::{replace_char, replaced};

verus! {

/// Lifecycle of a transcription task, as recorded in the `status` column.
#[derive(Clone, Copy, Debug, PartialEq, Eq, Structural)]
pub enum TaskStatus {
    NotStarted,
    InProgress,
    Error,
    Finished,
}

/// The text under which a status is stored.
pub open spec fn status_text(status: TaskStatus) -> Seq<char> {
    match status {
        TaskStatus::NotStarted => "notStarted"@,
        TaskStatus::InProgress => "inProgress"@,
        TaskStatus::Error => "error"@,
        TaskStatus::Finished => "finished"@,
    }
}

impl TaskStatus {
    /// The stored text of this status.
    pub fn to_str(&self) -> (text: &'static str)
        ensures
            text@ == status_text(*self),
    {
        match self {
            TaskStatus::NotStarted => "notStarted",
            TaskStatus::InProgress => "inProgress",
            TaskStatus::Error => "error",
            TaskStatus::Finished => "finished",
        }
    }

    /// The stored text of this status, as an owned string.
    pub fn to_string(&self) -> (text: String)
        ensures
            text@ == status_text(*self),
    {
        self.to_str().to_owned()
    }
}

/// Distinct statuses are stored under distinct texts, so the stored text
/// identifies the status.
pub proof fn lemma_status_text_injective(a: TaskStatus, b: TaskStatus)
    ensures
        status_text(a) == status_text(b) ==> a == b,
{
    reveal_strlit("notStarted");
    reveal_strlit("inProgress");
    reveal_strlit("error");
    reveal_strlit("finished");
    if a != b {
        assert(status_text(a).len() != status_text(b).len() || status_text(a)[0] != status_text(b)[0]);
    }
}


/// A transcription task: the row of the task table that the transcriber works on.
/// The id is the 128-bit value of the task's UUID.
#[derive(Debug)]
pub struct Task {
    pub id: u128,
    pub url: String,
    pub status: String,
    pub transcript: String,
}

/// The task with its texts taken as character sequences.
pub struct TaskView {
    pub id: u128,
    pub url: Seq<char>,
    pub status: Seq<char>,
    pub transcript: Seq<char>,
}

impl View for Task {
    type V = TaskView;

    open spec fn view(&self) -> TaskView {
        TaskView { id: self.id, url: self.url@, status: self.status@, transcript: self.transcript@ }
    }
}

impl Clone for Task {
    fn clone(&self) -> (copy: Self)
        ensures
            copy@ == self@,
    {
        Task {
            id: self.id,
            url: self.url.clone(),
            status: self.status.clone(),
            transcript: self.transcript.clone(),
        }
    }
}

/// The lower-case hexadecimal digit character of `d` (for `0 <= d < 16`).
pub open spec fn hex_char(d: int) -> char {
    if d < 10 {
        (d + 48) as char
    } else {
        (d + 87) as char
    }
}

/// The 32 hexadecimal digits of a 128-bit value, most significant first.
pub open spec fn hex_digits(id: u128) -> Seq<char> {
    Seq::new(32, |i: int| hex_char((id as int / pow(16, (31 - i) as nat)) % 16))
}

/// The hyphenated text of a UUID: its hexadecimal digits in groups of 8, 4, 4, 4 and 12.
pub open spec fn uuid_text(id: u128) -> Seq<char> {
    let h = hex_digits(id);
    h.subrange(0, 8) + seq!['-'] + h.subrange(8, 12) + seq!['-'] + h.subrange(12, 16) + seq!['-']
        + h.subrange(16, 20) + seq!['-'] + h.subrange(20, 32)
}

/// `uuid::Uuid::from_u128(id).hyphenated().to_string()`: the uuid crate documents this text
/// as the big-endian hexadecimal digits of the value, lower case, grouped 8-4-4-4-12.
#[verifier::external_body]
pub(crate) fn uuid_string(id: u128) -> (text: String)
    ensures
        text@ == uuid_text(id),
{
    uuid::Uuid::from_u128(id).hyphenated().to_string()
}

/// The PostgreSQL channel on which the end of a task is announced: `task_<id>_done` with the
/// hyphens of the id replaced by underscores (a channel name may not hold a hyphen).
pub open spec fn done_channel_text(id: u128) -> Seq<char> {
    "task_"@ + replace_char(uuid_text(id), '-', '_') + "_done"@
}

/// The statement that announces the end of a task, with the task's JSON as its parameter.
pub open spec fn notify_done_text(id: u128) -> Seq<char> {
    "SELECT pg_notify('"@ + done_channel_text(id) + "', $1)"@
}

/// The channel on which the end of task `id` is announced.
pub fn done_channel(id: u128) -> (channel: String)
    ensures
        channel@ == done_channel_text(id),
{
    let text = uuid_string(id);
    let underscored = replaced(text.as_str(), '-', '_');
    let channel = String::from_str("task_").concat(underscored.as_str()).concat("_done");
    channel
}

/// The statement that announces the end of task `id`.
pub fn notify_done_query(id: u128) -> (query: String)
    ensures
        query@ == notify_done_text(id),
{
    let channel = done_channel(id);
    String::from_str("SELECT pg_notify('").concat(channel.as_str()).concat("', $1)")
}

/// A done channel never holds a hyphen, whatever the task's id.
pub proof fn lemma_done_channel_has_no_hyphen(id: u128)
    ensures
        !done_channel_text(id).contains('-'),
{
    reveal_strlit("task_");
    reveal_strlit("_done");
    let s = done_channel_text(id);
    let mid = replace_char(uuid_text(id), '-', '_');
    assert forall|i: int| 0 <= i < s.len() implies s[i] != '-' by {
        if i < 5 {
            assert(s[i] == "task_"@[i]);
        } else if i < 5 + mid.len() {
            assert(s[i] == mid[i - 5]);
        } else {
            assert(s[i] == "_done"@[i - 5 - mid.len()]);
        }
    }
}

/// Distinct hexadecimal digit values have distinct digit characters, none of them `-` or `_`.
proof fn lemma_hex_char(d1: int, d2: int)
    requires
        0 <= d1 < 16,
        0 <= d2 < 16,
    ensures
        hex_char(d1) == hex_char(d2) ==> d1 == d2,
        hex_char(d1) != '-',
        hex_char(d1) != '_',
{
}

/// `16^32` exceeds every 128-bit value.
proof fn lemma_pow16_32()
    ensures
        pow(16, 32) == 0x1_0000_0000_0000_0000_0000_0000_0000_0000int,
{
    reveal_with_fuel(pow, 33);
}

/// Values whose hexadecimal digits from position `k` up agree are equal once divided by `16^k`.
proof fn lemma_high_digits_agree(a: u128, b: u128, k: nat)
    requires
        k <= 32,
        forall|j: nat| k <= j < 32 ==> (a as int / #[trigger] pow(16, j)) % 16 == (b as int / pow(16, j)) % 16,
    ensures
        a as int / pow(16, k) == b as int / pow(16, k),
    decreases 32 - k,
{
    vstd::arithmetic::power::lemma_pow_positive(16, k);
    if k == 32 {
        lemma_pow16_32();
        lemma_basic_div(a as int, pow(16, 32));
        lemma_basic_div(b as int, pow(16, 32));
    } else {
        lemma_high_digits_agree(a, b, k + 1);
        let p = pow(16, k);
        assert(pow(16, k + 1) == 16 * p) by {
            reveal(pow);
        }
        lemma_div_denominator(a as int, p, 16);
        lemma_div_denominator(b as int, p, 16);
        assert(p * 16 == 16 * p) by (nonlinear_arith);
        lemma_fundamental_div_mod(a as int / p, 16);
        lemma_fundamental_div_mod(b as int / p, 16);
    }
}

/// A UUID's hexadecimal digits determine it.
proof fn lemma_hex_digits_injective(a: u128, b: u128)
    ensures
        hex_digits(a) == hex_digits(b) ==> a == b,
{
    if hex_digits(a) == hex_digits(b) {
        assert forall|j: nat| 0 <= j < 32 implies (a as int / #[trigger] pow(16, j)) % 16 == (b as int / pow(16, j)) % 16 by {
            let i = 31 - j;
            vstd::arithmetic::power::lemma_pow_positive(16, j);
            assert(hex_digits(a)[i] == hex_digits(b)[i]);
            assert((31 - i) as nat == j);
            lemma_hex_char((a as int / pow(16, j)) % 16, (b as int / pow(16, j)) % 16);
        }
        lemma_high_digits_agree(a, b, 0);
        assert(pow(16, 0) == 1) by {
            reveal(pow);
        }
    }
}

/// Where the `i`-th hexadecimal digit of a UUID stands in its done channel.
spec fn channel_position(i: int) -> int {
    5 + i + (if i >= 8 { 1int } else { 0 }) + (if i >= 12 { 1int } else { 0 }) + (if i >= 16 { 1int } else { 0 })
        + (if i >= 20 { 1int } else { 0 })
}

proof fn lemma_channel_holds_digits(id: u128, i: int)
    requires
        0 <= i < 32,
    ensures
        done_channel_text(id)[channel_position(i)] == hex_digits(id)[i],
{
    reveal_strlit("task_");
    let h = hex_digits(id);
    let u = uuid_text(id);
    assert(u.len() == 36);
    let k = channel_position(i) - 5;
    assert(u[k] == h[i]);
    vstd::arithmetic::power::lemma_pow_positive(16, (31 - i) as nat);
    lemma_hex_char((id as int / pow(16, (31 - i) as nat)) % 16, 0);
    assert(replace_char(u, '-', '_')[k] == u[k]);
}

/// Distinct tasks are announced on distinct channels.
pub proof fn lemma_done_channels_distinct(a: u128, b: u128)
    ensures
        done_channel_text(a) == done_channel_text(b) ==> a == b,
{
    if done_channel_text(a) == done_channel_text(b) {
        assert forall|i: int| 0 <= i < 32 implies hex_digits(a)[i] == hex_digits(b)[i] by {
            lemma_channel_holds_digits(a, i);
            lemma_channel_holds_digits(b, i);
        }
        assert(hex_digits(a) =~= hex_digits(b));
        lemma_hex_digits_injective(a, b);
    }
}

/// The text that serde_json writes for a JSON object whose members are the given
/// key/string pairs (inserted in this order).
pub uninterp spec fn json_string_object(entries: Seq<(Seq<char>, Seq<char>)>) -> Seq<char>;

/// The JSON text of an object of string members: builds a `serde_json::Map` of the pairs and
/// writes it with `serde_json::Value::to_string`.
#[verifier::external_body]
fn json_object_text(entries: Vec<(String, String)>) -> (text: String)
    ensures
        text@ == json_string_object(entries@.map_values(|e: (String, String)| (e.0@, e.1@))),
{
    let map: serde_json::Map<String, serde_json::Value> =
        entries.into_iter().map(|(k, v)| (k, serde_json::Value::String(v))).collect();
    serde_json::Value::Object(map).to_string()
}

/// The members that a task's JSON text holds.
pub open spec fn task_json_members(task: TaskView) -> Seq<(Seq<char>, Seq<char>)> {
    seq![
        ("id"@, uuid_text(task.id)),
        ("url"@, task.url),
        ("status"@, task.status),
        ("transcript"@, task.transcript),
    ]
}

impl Task {
    /// The task written as a JSON object of its id, url, status and transcript.
    pub fn to_json_str(&self) -> (text: String)
        ensures
            text@ == json_string_object(task_json_members(self@)),
    {
        let mut entries: Vec<(String, String)> = Vec::new();
        entries.push((String::from_str("id"), uuid_string(self.id)));
        entries.push((String::from_str("url"), self.url.clone()));
        entries.push((String::from_str("status"), self.status.clone()));
        entries.push((String::from_str("transcript"), self.transcript.clone()));
        assert(entries@.map_values(|e: (String, String)| (e.0@, e.1@)) =~= task_json_members(self@));
        json_object_text(entries)
    }
}

} // verus!
