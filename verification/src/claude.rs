//! Activity records of the coding assistant's session logs.
//!
//! A log holds one JSON record per line. Reading the lines and parsing the
//! JSON is the caller's part; which records count, and what they say, is
//! decided here.
use crate::dates::{local_timestamp, timestamp_in_month, timestamp_matches_date};
use crate::dates::{parse_date, date_of, DateError};
use crate::sort::{bytes_less, lemma_lex_strict_weak_order, lex_less, stable_sort, stable_sorted, Ranked};
use crate::text::{starts_with, str_eq};
use vstd::prelude::*;
use vstd::utf8::encode_utf8;

verus! {

/// Who wrote a record.
#[derive(Debug, Clone, Copy, PartialEq, Eq, Structural)]
pub enum ClaudeActivityKind {
    User,
    Assistant,
}

/// One record of activity.
#[derive(Debug, Clone, PartialEq, Eq)]
pub struct ClaudeActivityItem {
    pub kind: ClaudeActivityKind,
    pub content: String,
    pub timestamp: String,
    pub project_path: String,
    pub session_id: String,
}

/// The activity of one day.
#[derive(Debug, Clone, PartialEq, Eq)]
pub struct ClaudeActivityResponse {
    pub date: String,
    pub items: Vec<ClaudeActivityItem>,
}

/// One line of a log, as far as it is read.
#[derive(Debug, Clone, PartialEq, Eq)]
pub struct JsonlRecord {
    pub record_type: Option<String>,
    pub timestamp: Option<String>,
    pub message: Option<MessageContent>,
    pub cwd: Option<String>,
    pub session_id: Option<String>,
}

/// The message of a record: plain text or a structure.
#[derive(Debug, Clone, PartialEq, Eq)]
pub enum MessageContent {
    Simple(String),
    Complex(ComplexMessage),
}

/// A structured message.
#[derive(Debug, Clone, PartialEq, Eq)]
pub struct ComplexMessage {
    pub content: Option<MessageBody>,
}

/// The body of a structured message: text or a list of blocks.
#[derive(Debug, Clone, PartialEq, Eq)]
pub enum MessageBody {
    Text(String),
    Array(Vec<ContentBlock>),
}

/// One block of a message body.
#[derive(Debug, Clone, PartialEq, Eq)]
pub struct ContentBlock {
    pub block_type: Option<String>,
    pub text: Option<String>,
}

/// Whether a block is a text block that holds text.
pub open spec fn is_text_block(block: ContentBlock) -> bool {
    block.block_type is Some && block.block_type->Some_0@ == "text"@ && block.text is Some
}

/// The texts of the text blocks among `blocks`, one per line: a line feed
/// stands between two texts, none at the end.
pub open spec fn block_lines(blocks: Seq<ContentBlock>) -> Seq<char>
    decreases blocks.len(),
{
    if blocks.len() == 0 {
        Seq::empty()
    } else {
        let front = blocks.drop_last();
        if !is_text_block(blocks.last()) {
            block_lines(front)
        } else if text_blocks(front) == 0 {
            blocks.last().text->Some_0@
        } else {
            block_lines(front) + "\n"@ + blocks.last().text->Some_0@
        }
    }
}

/// Number of text blocks among `blocks`.
pub open spec fn text_blocks(blocks: Seq<ContentBlock>) -> nat
    decreases blocks.len(),
{
    if blocks.len() == 0 {
        0
    } else if is_text_block(blocks.last()) {
        text_blocks(blocks.drop_last()) + 1
    } else {
        text_blocks(blocks.drop_last())
    }
}

/// The text of a message.
pub open spec fn content_of(message: MessageContent) -> Seq<char> {
    match message {
        MessageContent::Simple(text) => text@,
        MessageContent::Complex(complex) => match complex.content {
            Some(MessageBody::Text(text)) => text@,
            Some(MessageBody::Array(blocks)) => block_lines(blocks@),
            None => Seq::empty(),
        },
    }
}

/// The kind that a record type names.
pub open spec fn kind_of(record_type: Seq<char>) -> Option<ClaudeActivityKind> {
    if record_type == "user"@ {
        Some(ClaudeActivityKind::User)
    } else if record_type == "assistant"@ {
        Some(ClaudeActivityKind::Assistant)
    } else {
        None
    }
}

/// Whether `path` lies under one of `folders`, by its text. With no folders
/// nothing lies under any.
pub open spec fn under_any(path: Seq<char>, folders: Seq<String>) -> bool {
    exists|i: int| 0 <= i < folders.len() && (#[trigger] folders[i])@.is_prefix_of(path)
}

/// The text of a message: plain text as it stands, of a list of blocks the
/// text blocks, one per line.
pub fn extract_content(message: &MessageContent) -> (content: String)
    ensures
        content@ == content_of(*message),
{
    match message {
        MessageContent::Simple(text) => text.clone(),
        MessageContent::Complex(complex) => match &complex.content {
            Some(MessageBody::Text(text)) => text.clone(),
            Some(MessageBody::Array(blocks)) => {
                let mut content = String::new();
                let mut seen: usize = 0;
                let mut i: usize = 0;
                while i < blocks.len()
                    invariant
                        0 <= i <= blocks@.len(),
                        seen <= i,
                        seen == text_blocks(blocks@.subrange(0, i as int)),
                        content@ == block_lines(blocks@.subrange(0, i as int)),
                        seen == 0 ==> content@.len() == 0,
                    decreases blocks.len() - i,
                {
                    proof {
                        let next = blocks@.subrange(0, i + 1);
                        assert(next.drop_last() =~= blocks@.subrange(0, i as int));
                    }
                    let block = &blocks[i];
                    let is_text = match &block.block_type {
                        Some(block_type) => str_eq(block_type.as_str(), "text"),
                        None => false,
                    };
                    if is_text {
                        match &block.text {
                            Some(text) => {
                                if seen > 0 {
                                    content.append("\n");
                                }
                                content.append(text.as_str());
                                seen = seen + 1;
                            },
                            None => {},
                        }
                    }
                    i = i + 1;
                    proof {
                        assert(content@ =~= block_lines(blocks@.subrange(0, i as int)));
                    }
                }
                proof {
                    assert(blocks@.subrange(0, i as int) =~= blocks@);
                }
                content
            },
            None => String::new(),
        },
    }
}

/// Whether records of this type count as activity.
pub fn should_include_record(record_type: &str) -> (counts: bool)
    ensures
        counts == (kind_of(record_type@) is Some),
{
    str_eq(record_type, "user") || str_eq(record_type, "assistant")
}

/// Whether `path` lies under one of `folders`, by its text.
pub fn is_under_any(path: &str, folders: &Vec<String>) -> (found: bool)
    ensures
        found == under_any(path@, folders@),
{
    let mut i: usize = 0;
    while i < folders.len()
        invariant
            0 <= i <= folders@.len(),
            forall|j: int| 0 <= j < i ==> !(#[trigger] folders@[j])@.is_prefix_of(path@),
        decreases folders.len() - i,
    {
        if starts_with(path, folders[i].as_str()) {
            return true;
        }
        i = i + 1;
    }
    false
}

/// Whether a record is activity of the given day in a subscribed folder.
/// With no folders every folder counts as subscribed.
pub open spec fn is_activity(
    record: JsonlRecord,
    year: i32,
    month: u32,
    day: u32,
    folders: Seq<String>,
) -> bool {
    &&& record.record_type is Some
    &&& kind_of(record.record_type->Some_0@) is Some
    &&& record.timestamp is Some
    &&& local_timestamp(encode_utf8(record.timestamp->Some_0@)) matches Some((y, m, d, _, _))
        && y == year && m == month && d == day
    &&& record.cwd is Some
    &&& folders.len() == 0 || under_any(record.cwd->Some_0@, folders)
    &&& record.message is Some
    &&& content_of(record.message->Some_0).len() > 0
}

/// Whether `item` says what the activity `record` tells.
pub open spec fn tells(item: ClaudeActivityItem, record: JsonlRecord) -> bool {
    &&& Some(item.kind) == kind_of(record.record_type->Some_0@)
    &&& item.content@ == content_of(record.message->Some_0)
    &&& item.timestamp@ == record.timestamp->Some_0@
    &&& item.project_path@ == record.cwd->Some_0@
    &&& item.session_id@ == match record.session_id {
        Some(id) => id@,
        None => Seq::empty(),
    }
}

/// The activity that a record tells of, if it is activity of the given day
/// in a subscribed folder.
pub fn activity_of_record(
    record: &JsonlRecord,
    year: i32,
    month: u32,
    day: u32,
    folders: &Vec<String>,
) -> (item: Option<ClaudeActivityItem>)
    ensures
        item is Some <==> is_activity(*record, year, month, day, folders@),
        item matches Some(found) ==> tells(found, *record),
{
    let record_type = match &record.record_type {
        Some(record_type) => record_type,
        None => {
            return None;
        },
    };
    let kind = if str_eq(record_type.as_str(), "user") {
        ClaudeActivityKind::User
    } else if str_eq(record_type.as_str(), "assistant") {
        ClaudeActivityKind::Assistant
    } else {
        return None;
    };
    let timestamp = match &record.timestamp {
        Some(timestamp) => timestamp,
        None => {
            return None;
        },
    };
    if !timestamp_matches_date(timestamp.as_str(), year, month, day) {
        return None;
    }
    let cwd = match &record.cwd {
        Some(cwd) => cwd,
        None => {
            return None;
        },
    };
    if folders.len() > 0 && !is_under_any(cwd.as_str(), folders) {
        return None;
    }
    let content = match &record.message {
        Some(message) => extract_content(message),
        None => {
            return None;
        },
    };
    if content.as_str().is_empty() {
        return None;
    }
    let session_id = match &record.session_id {
        Some(id) => id.clone(),
        None => String::new(),
    };
    Some(
        ClaudeActivityItem {
            kind,
            content,
            timestamp: timestamp.clone(),
            project_path: cwd.clone(),
            session_id,
        },
    )
}

/// The day of the month on which a record tells of activity in the given
/// month, provided that it lies in a subscribed folder. With no folders
/// every record counts.
pub open spec fn activity_day(record: JsonlRecord, year: i32, month: u32, folders: Seq<String>)
    -> Option<u32> {
    if record.record_type is None || kind_of(record.record_type->Some_0@) is None {
        None
    } else if folders.len() > 0 && (record.cwd is None || !under_any(
        record.cwd->Some_0@,
        folders,
    )) {
        None
    } else if record.timestamp is None {
        None
    } else {
        match local_timestamp(encode_utf8(record.timestamp->Some_0@)) {
            Some((y, m, d, _, _)) => if y == year && m == month {
                Some(d)
            } else {
                None
            },
            None => None,
        }
    }
}

/// The day of the month on which a record tells of activity in the given
/// month.
pub fn activity_day_of_record(record: &JsonlRecord, year: i32, month: u32, folders: &Vec<String>)
    -> (day: Option<u32>)
    ensures
        day == activity_day(*record, year, month, folders@),
{
    let included = match &record.record_type {
        Some(record_type) => should_include_record(record_type.as_str()),
        None => false,
    };
    if !included {
        return None;
    }
    if folders.len() > 0 {
        let subscribed = match &record.cwd {
            Some(cwd) => is_under_any(cwd.as_str(), folders),
            None => false,
        };
        if !subscribed {
            return None;
        }
    }
    match &record.timestamp {
        Some(timestamp) => timestamp_in_month(timestamp.as_str(), year, month),
        None => None,
    }
}

impl Ranked for ClaudeActivityItem {
    /// The later record stands first.
    open spec fn precedes(&self, other: &Self) -> bool {
        lex_less(encode_utf8(other.timestamp@), encode_utf8(self.timestamp@))
    }

    fn comes_before(&self, other: &Self) -> (before: bool) {
        bytes_less(other.timestamp.as_str().as_bytes(), self.timestamp.as_str().as_bytes())
    }

    proof fn lemma_strict_weak_order(a: &Self, b: &Self, c: &Self) {
        lemma_lex_strict_weak_order(
            encode_utf8(c.timestamp@),
            encode_utf8(b.timestamp@),
            encode_utf8(a.timestamp@),
        );
        lemma_lex_strict_weak_order(
            encode_utf8(a.timestamp@),
            encode_utf8(b.timestamp@),
            encode_utf8(c.timestamp@),
        );
        lemma_lex_strict_weak_order(
            encode_utf8(b.timestamp@),
            encode_utf8(a.timestamp@),
            encode_utf8(c.timestamp@),
        );
    }
}

/// The activities among `records`, in the order of the records.
pub open spec fn activities(
    records: Seq<JsonlRecord>,
    year: i32,
    month: u32,
    day: u32,
    folders: Seq<String>,
) -> Seq<JsonlRecord>
    decreases records.len(),
{
    if records.len() == 0 {
        Seq::empty()
    } else {
        let front = activities(records.drop_last(), year, month, day, folders);
        if is_activity(records.last(), year, month, day, folders) {
            front.push(records.last())
        } else {
            front
        }
    }
}

/// The activities that the records of one log tell of for `date`, in the
/// order of the records. Fails if `date` is not written as `YYYY-MM-DD`.
pub fn read_jsonl_activities(records: &Vec<JsonlRecord>, date: &str, folders: &Vec<String>) -> (result:
    Result<Vec<ClaudeActivityItem>, DateError>)
    ensures
        match date_of(encode_utf8(date@)) {
            Err(error) => result == Err::<Vec<ClaudeActivityItem>, DateError>(error),
            Ok((year, month, day)) => result is Ok && {
                let items = result->Ok_0@;
                let found = activities(records@, year, month, day, folders@);
                &&& items.len() == found.len()
                &&& forall|i: int| 0 <= i < items.len() ==> tells(#[trigger] items[i], found[i])
            },
        },
{
    let (year, month, day) = match parse_date(date) {
        Ok(parsed) => parsed,
        Err(error) => {
            return Err(error);
        },
    };
    let mut items: Vec<ClaudeActivityItem> = Vec::new();
    let mut i: usize = 0;
    proof {
        assert(records@.subrange(0, 0) =~= Seq::<JsonlRecord>::empty());
    }
    while i < records.len()
        invariant
            0 <= i <= records@.len(),
            items@.len() == activities(
                records@.subrange(0, i as int),
                year,
                month,
                day,
                folders@,
            ).len(),
            forall|k: int|
                0 <= k < items@.len() ==> tells(
                    #[trigger] items@[k],
                    activities(records@.subrange(0, i as int), year, month, day, folders@)[k],
                ),
        decreases records.len() - i,
    {
        let ghost before = records@.subrange(0, i as int);
        let ghost after = records@.subrange(0, i + 1);
        proof {
            assert(after.drop_last() =~= before);
            assert(after.last() == records@[i as int]);
        }
        match activity_of_record(&records[i], year, month, day, folders) {
            Some(item) => {
                items.push(item);
            },
            None => {},
        }
        i = i + 1;
    }
    proof {
        assert(records@.subrange(0, i as int) =~= records@);
    }
    Ok(items)
}

/// Real months run from one to twelve.
pub fn valid_month(month: u32) -> (valid: bool)
    ensures
        valid == (1 <= month <= 12),
{
    1 <= month && month <= 12
}

/// Adds `day` to the ascending list of distinct days.
fn insert_day(days: &mut Vec<u32>, day: u32)
    requires
        ascending(old(days)@),
    ensures
        ascending(final(days)@),
        final(days)@.to_set() == old(days)@.to_set().insert(day),
{
    let mut p: usize = 0;
    while p < days.len() && days[p] < day
        invariant
            0 <= p <= days@.len(),
            days@ == old(days)@,
            ascending(days@),
            forall|k: int| 0 <= k < p ==> days@[k] < day,
        decreases days.len() - p,
    {
        p = p + 1;
    }
    if p < days.len() && days[p] == day {
        proof {
            assert(days@.to_set() =~= days@.to_set().insert(day));
        }
        return ;
    }
    let ghost before = days@;
    days.insert(p, day);
    proof {
        let after = days@;
        assert forall|a: int, b: int| 0 <= a < b < after.len() implies after[a] < after[b] by {
            let x = if a < p {
                a
            } else {
                a - 1
            };
            let y = if b < p {
                b
            } else {
                b - 1
            };
            if a != p && b != p {
                assert(after[a] == before[x]);
                assert(after[b] == before[y]);
            } else if a == p {
                assert(after[b] == before[y]);
                assert(before[p as int] <= before[y]);
            } else {
                assert(after[a] == before[x]);
            }
        }
        assert forall|v: u32| after.to_set().contains(v) <==> before.to_set().insert(
            day,
        ).contains(v) by {
            if after.contains(v) {
                let k = choose|k: int| 0 <= k < after.len() && after[k] == v;
                if k < p {
                    assert(before[k] == v);
                } else if k > p {
                    assert(before[k - 1] == v);
                }
            }
            if before.contains(v) {
                let k = choose|k: int| 0 <= k < before.len() && before[k] == v;
                if k < p {
                    assert(after[k] == v);
                } else {
                    assert(after[k + 1] == v);
                }
            }
            if v == day {
                assert(after[p as int] == v);
            }
        }
        assert(after.to_set() =~= before.to_set().insert(day));
    }
}

/// Whether the numbers rise strictly.
pub open spec fn ascending(days: Seq<u32>) -> bool {
    forall|a: int, b: int| 0 <= a < b < days.len() ==> days[a] < days[b]
}

/// The activity of one day: what the logs told, the latest first. Records
/// of the same time stay in the order in which they were read.
pub fn get_claude_activities(date: String, items: Vec<ClaudeActivityItem>) -> (response:
    ClaudeActivityResponse)
    ensures
        response.date == date,
        response.items@ == stable_sorted(items@),
{
    ClaudeActivityResponse { date, items: stable_sort(items) }
}

/// Remembers for each project directory the path of its project.
pub struct ProjectPathCache {
    entries: Vec<(String, String)>,
}

impl View for ProjectPathCache {
    type V = Map<Seq<char>, Seq<char>>;

    closed spec fn view(&self) -> Map<Seq<char>, Seq<char>> {
        lookup_map(self.entries@)
    }
}

/// The map that a list of pairs stands for: of two pairs with one key the
/// later one counts.
pub open spec fn lookup_map(entries: Seq<(String, String)>) -> Map<Seq<char>, Seq<char>>
    decreases entries.len(),
{
    if entries.len() == 0 {
        Map::empty()
    } else {
        lookup_map(entries.drop_last()).insert(entries.last().0@, entries.last().1@)
    }
}

impl ProjectPathCache {
    /// A cache that remembers nothing.
    pub fn new() -> (cache: Self)
        ensures
            cache@ == Map::<Seq<char>, Seq<char>>::empty(),
    {
        ProjectPathCache { entries: Vec::new() }
    }
}

/// The project path remembered for `project_dir`.
pub fn get_cached_project_path(cache: &ProjectPathCache, project_dir: &str) -> (path: Option<
    String,
>)
    ensures
        path is Some <==> cache@.contains_key(project_dir@),
        path matches Some(found) ==> found@ == cache@[project_dir@],
{
    let mut i: usize = cache.entries.len();
    proof {
        assert(cache.entries@.subrange(0, i as int) =~= cache.entries@);
    }
    while i > 0
        invariant
            0 <= i <= cache.entries@.len(),
            cache@.contains_key(project_dir@) <==> lookup_map(
                cache.entries@.subrange(0, i as int),
            ).contains_key(project_dir@),
            cache@.contains_key(project_dir@) ==> cache@[project_dir@] == lookup_map(
                cache.entries@.subrange(0, i as int),
            )[project_dir@],
        decreases i,
    {
        let ghost part = cache.entries@.subrange(0, i as int);
        proof {
            assert(part.drop_last() =~= cache.entries@.subrange(0, i - 1));
            assert(part.last() == cache.entries@[i - 1]);
        }
        i = i - 1;
        if crate::text::str_eq(cache.entries[i].0.as_str(), project_dir) {
            return Some(cache.entries[i].1.clone());
        }
    }
    None
}

/// Remembers `value` as the project path of `project_dir`.
pub fn set_cached_project_path(cache: &mut ProjectPathCache, project_dir: &str, value: String)
    ensures
        final(cache)@ == old(cache)@.insert(project_dir@, value@),
{
    let ghost before = cache.entries@;
    cache.entries.push((project_dir.to_string(), value));
    proof {
        assert(cache.entries@.drop_last() =~= before);
    }
}

/// Why the days of a month could not be listed.
#[derive(Debug, Clone, Copy, PartialEq, Eq, Structural)]
pub enum MonthError {
    /// The month is none of the twelve.
    OutOfRange,
}

impl MonthError {
    /// The message shown to the user.
    pub fn message(&self) -> (text: String)
        ensures
            text@ == "Month must be between 1 and 12"@,
    {
        "Month must be between 1 and 12".to_string()
    }
}

/// The days among `found`, each once, in ascending order.
pub fn distinct_days(found: &Vec<u32>) -> (days: Vec<u32>)
    ensures
        ascending(days@),
        days@.to_set() == found@.to_set(),
{
    let mut days: Vec<u32> = Vec::new();
    let mut i: usize = 0;
    proof {
        assert(found@.subrange(0, 0).to_set() =~= days@.to_set());
    }
    while i < found.len()
        invariant
            0 <= i <= found@.len(),
            ascending(days@),
            days@.to_set() == found@.subrange(0, i as int).to_set(),
        decreases found.len() - i,
    {
        let ghost before = found@.subrange(0, i as int);
        let ghost after = found@.subrange(0, i + 1);
        insert_day(&mut days, found[i]);
        proof {
            assert(after =~= before.push(found@[i as int]));
            assert forall|v: u32| after.to_set().contains(v) <==> before.to_set().insert(
                found@[i as int],
            ).contains(v) by {
                if after.contains(v) {
                    let k = choose|k: int| 0 <= k < after.len() && after[k] == v;
                    if k < before.len() {
                        assert(before[k] == v);
                    }
                }
                if before.contains(v) {
                    let k = choose|k: int| 0 <= k < before.len() && before[k] == v;
                    assert(after[k] == v);
                }
                if v == found@[i as int] {
                    assert(after[i as int] == v);
                }
            }
            assert(after.to_set() =~= before.to_set().insert(found@[i as int]));
        }
        i = i + 1;
    }
    proof {
        assert(found@.subrange(0, i as int) =~= found@);
    }
    days
}

/// The days of a month on which there was activity: the days that were
/// found, each once, in ascending order. A month that is none of the twelve
/// is turned away.
pub fn get_claude_activity_dates(found: &Vec<u32>, month: u32) -> (result: Result<
    Vec<u32>,
    MonthError,
>)
    ensures
        !(1 <= month <= 12) ==> result == Err::<Vec<u32>, MonthError>(MonthError::OutOfRange),
        1 <= month <= 12 ==> result is Ok && ascending(result->Ok_0@) && result->Ok_0@.to_set()
            == found@.to_set(),
{
    if !valid_month(month) {
        return Err(MonthError::OutOfRange);
    }
    Ok(distinct_days(found))
}

/// Whether the texts rise strictly in the order of a dictionary.
pub open spec fn ascending_texts(texts: Seq<String>) -> bool {
    forall|a: int, b: int|
        #![trigger texts[a], texts[b]]
        0 <= a < b < texts.len() ==> lex_less(encode_utf8(texts[a]@), encode_utf8(texts[b]@))
}

/// Whether `path` is among `projects`.
pub open spec fn lists_project(projects: Seq<String>, path: Seq<char>) -> bool {
    exists|i: int| 0 <= i < projects.len() && (#[trigger] projects[i])@ == path
}

/// The projects among `found`, each once, in the order of a dictionary.
pub fn list_claude_projects(found: Vec<String>) -> (projects: Vec<String>)
    ensures
        ascending_texts(projects@),
        forall|path: Seq<char>| lists_project(projects@, path) <==> lists_project(found@, path),
{
    let ghost all = found@;
    let mut found = found;
    let mut projects: Vec<String> = Vec::new();
    while found.len() > 0
        invariant
            found@ == all.subrange(0, found@.len() as int),
            found@.len() <= all.len(),
            ascending_texts(projects@),
            forall|path: Seq<char>|
                lists_project(projects@, path) <==> lists_project(
                    all.subrange(found@.len() as int, all.len() as int),
                    path,
                ),
        decreases found.len(),
    {
        let ghost k = found@.len() as int;
        let ghost listed = projects@;
        let path = found.pop().unwrap();
        insert_project(&mut projects, path);
        proof {
            assert(found@ =~= all.subrange(0, k - 1));
            let tail = all.subrange(k, all.len() as int);
            let longer = all.subrange(k - 1, all.len() as int);
            assert forall|other: Seq<char>|
                lists_project(projects@, other) <==> lists_project(longer, other) by {
                if lists_project(longer, other) {
                    let j = choose|j: int| 0 <= j < longer.len() && (#[trigger] longer[j])@ == other;
                    if j > 0 {
                        assert(tail[j - 1]@ == other);
                    }
                }
                if lists_project(tail, other) {
                    let j = choose|j: int| 0 <= j < tail.len() && (#[trigger] tail[j])@ == other;
                    assert(longer[j + 1]@ == other);
                }
                if other == path@ {
                    assert(longer[0]@ == other);
                }
            }
        }
    }
    proof {
        assert(all.subrange(0, all.len() as int) =~= all);
    }
    projects
}

/// Adds `path` to `projects`, an ascending list of distinct project paths,
/// unless it is there.
fn insert_project(projects: &mut Vec<String>, path: String)
    requires
        ascending_texts(old(projects)@),
    ensures
        ascending_texts(final(projects)@),
        lists_project(final(projects)@, path@),
        forall|other: Seq<char>|
            lists_project(final(projects)@, other) <==> (other == path@ || lists_project(
                old(projects)@,
                other,
            )),
{
    let mut p: usize = 0;
    while p < projects.len() && bytes_less(
        projects[p].as_str().as_bytes(),
        path.as_str().as_bytes(),
    )
        invariant
            0 <= p <= projects@.len(),
            projects@ == old(projects)@,
            forall|k: int|
                0 <= k < p ==> lex_less(
                    encode_utf8((#[trigger] projects@[k])@),
                    encode_utf8(path@),
                ),
        decreases projects.len() - p,
    {
        p = p + 1;
    }
    let ghost before = projects@;
    if p < projects.len() && str_eq(projects[p].as_str(), path.as_str()) {
        proof {
            assert(before[p as int]@ == path@);
        }
        return ;
    }
    proof {
        if p < before.len() {
            // What stands at `p` is neither below `path` nor equal to it.
            vstd::utf8::encode_utf8_decode_utf8(before[p as int]@);
            vstd::utf8::encode_utf8_decode_utf8(path@);
            crate::sort::lemma_lex_total(encode_utf8(before[p as int]@), encode_utf8(path@));
        }
    }
    projects.insert(p, path);
    proof {
        let after = projects@;
        assert forall|a: int, b: int|
            #![trigger after[a], after[b]]
            0 <= a < b < after.len() implies lex_less(
            encode_utf8(after[a]@),
            encode_utf8(after[b]@),
        ) by {
            let x = if a < p {
                a
            } else {
                a - 1
            };
            let y = if b < p {
                b
            } else {
                b - 1
            };
            if a != p && b != p {
                assert(after[a] == before[x]);
                assert(after[b] == before[y]);
            } else if a == p {
                assert(after[b] == before[y]);
                if y > p {
                    assert(lex_less(encode_utf8(before[p as int]@), encode_utf8(before[y]@)));
                    crate::sort::lemma_lex_transitive(
                        encode_utf8(path@),
                        encode_utf8(before[p as int]@),
                        encode_utf8(before[y]@),
                    );
                }
            } else {
                assert(after[a] == before[x]);
            }
        }
        assert(after[p as int]@ == path@);
        assert forall|other: Seq<char>|
            lists_project(after, other) <==> (other == path@ || lists_project(before, other)) by {
            if lists_project(after, other) {
                let k = choose|k: int| 0 <= k < after.len() && (#[trigger] after[k])@ == other;
                if k < p {
                    assert(before[k]@ == other);
                } else if k > p {
                    assert(before[k - 1]@ == other);
                }
            }
            if lists_project(before, other) {
                let k = choose|k: int| 0 <= k < before.len() && (#[trigger] before[k])@ == other;
                if k < p {
                    assert(after[k]@ == other);
                } else {
                    assert(after[k + 1]@ == other);
                }
            }
        }
    }
}

/// Whether a project is looked into: with folders subscribed, its path must
/// be known and lie under one of them.
pub fn project_subscribed(project_path: Option<&str>, folders: &Vec<String>) -> (subscribed: bool)
    ensures
        subscribed == (folders@.len() == 0 || (project_path is Some && under_any(
            project_path->Some_0@,
            folders@,
        ))),
{
    if folders.len() == 0 {
        return true;
    }
    match project_path {
        Some(path) => is_under_any(path, folders),
        None => false,
    }
}

/// Whether a file with this extension is a log.
pub fn is_log_file(extension: Option<&str>) -> (yes: bool)
    ensures
        yes == (extension is Some && extension->Some_0@ == "jsonl"@),
{
    match extension {
        Some(extension) => str_eq(extension, "jsonl"),
        None => false,
    }
}

} // verus!
