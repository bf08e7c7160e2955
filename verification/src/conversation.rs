//! Persisted conversation records and their derived summaries. The store
//! itself (one line-delimited file per session) is an external collaborator;
//! this module holds the rules: how a session id becomes a file name, how a
//! title and a preview are derived from records, which records a load limit
//! keeps, and how a whole session is summarized.

use crate::strutil::eq_ascii_case_spec;
use crate::strutil::eq_ignore_ascii_case;
use crate::strutil::first_line;
use crate::strutil::first_line_spec;
use crate::strutil::is_space_char;
use crate::strutil::lemma_first_line_is_prefix;
use crate::strutil::lemma_lex_le_total;
use crate::strutil::lemma_lex_le_trans;
use crate::strutil::lex_le;
use crate::strutil::str_lex_le;
use crate::strutil::lemma_trim_end_prefix;
use crate::strutil::lemma_trim_start_noop;
use crate::strutil::lemma_trimmed_starts_nonspace;
use crate::strutil::prefix_chars;
use crate::strutil::push_char;
use crate::strutil::trim_end_spec;
use crate::strutil::trim_str;
use crate::strutil::trimmed_spec;
use vstd::assert_multisets_equal;
use vstd::multiset::Multiset;
use vstd::prelude::*;
use vstd::seq_lib::lemma_multiset_commutative;
use vstd::string::StrSliceExecFns;
use vstd::string::StringExecFns;

verus! {

/// One stored line of a conversation file.
#[derive(Debug, Clone)]
pub struct ChatRecord {
    pub role: String,
    pub content: String,
    pub timestamp: Option<String>,
}

/// The mathematical value of a record.
pub struct RecordView {
    pub role: Seq<char>,
    pub content: Seq<char>,
    pub timestamp: Option<Seq<char>>,
}

impl View for ChatRecord {
    type V = RecordView;

    open spec fn view(&self) -> RecordView {
        RecordView {
            role: self.role@,
            content: self.content@,
            timestamp: match self.timestamp {
                Some(t) => Some(t@),
                None => None,
            },
        }
    }
}

/// What a conversation list shows for one session.
#[derive(Debug, Clone)]
pub struct ConversationSummary {
    pub session_id: String,
    pub title: String,
    pub created_at: Option<String>,
    pub updated_at: Option<String>,
    pub message_count: usize,
    pub preview: Option<String>,
}

/// Characters a session id may keep; everything else becomes an underscore.
pub open spec fn keep_id_char(c: char) -> bool {
    let u = c as u32;
    (48 <= u <= 57) || (65 <= u <= 90) || (97 <= u <= 122) || c == '-' || c == '_'
}

/// A session id's characters after sanitizing.
pub open spec fn sanitized_chars(s: Seq<char>) -> Seq<char> {
    s.map_values(
        |c: char|
            if keep_id_char(c) {
                c
            } else {
                '_'
            },
    )
}

/// The sanitized form of a session id: unsafe characters replaced by
/// underscores, and the fixed name `session` for an empty id.
pub open spec fn sanitize_spec(s: Seq<char>) -> Seq<char> {
    if s.len() == 0 {
        "session"@
    } else {
        sanitized_chars(s)
    }
}

/// Sanitize a session id for use in a file name.
pub fn sanitize_session_id(session_id: &str) -> (r: String)
    ensures
        r@ == sanitize_spec(session_id@),
{
    let n = session_id.unicode_len();
    if n == 0 {
        return String::from_str("session");
    }
    let mut out = String::new();
    let mut i: usize = 0;
    assert(out@ =~= sanitized_chars(session_id@.take(0)));
    while i < n
        invariant
            0 <= i <= n == session_id@.len(),
            out@ == sanitized_chars(session_id@.take(i as int)),
        decreases n - i,
    {
        let c = session_id.get_char(i);
        let u = c as u32;
        let kept = (48 <= u && u <= 57) || (65 <= u && u <= 90) || (97 <= u && u <= 122) || c
            == '-' || c == '_';
        if kept {
            push_char(&mut out, c);
        } else {
            push_char(&mut out, '_');
        }
        proof {
            assert(sanitized_chars(session_id@.take(i + 1)) =~= sanitized_chars(
                session_id@.take(i as int),
            ).push(
                if keep_id_char(session_id@[i as int]) {
                    session_id@[i as int]
                } else {
                    '_'
                },
            ));
        }
        i = i + 1;
    }
    proof {
        assert(session_id@.take(n as int) =~= session_id@);
    }
    out
}

/// The file name a session's records are stored under: the sanitized id with
/// the line-delimited extension.
pub fn session_file(session_id: &str) -> (r: String)
    ensures
        r@ == sanitize_spec(session_id@) + ".jsonl"@,
{
    let mut name = sanitize_session_id(session_id);
    name.append(".jsonl");
    name
}

/// The title derived from one source text, before the length cut: the first
/// line of the trimmed text, itself trimmed, at most eighty characters.
pub open spec fn title_core(t: Seq<char>) -> Seq<char> {
    let lt = trimmed_spec(first_line_spec(t));
    lt.take(
        if 80 <= lt.len() {
            80int
        } else {
            lt.len() as int
        },
    )
}

/// A conversation's title from one source text: `New chat` for blank text;
/// otherwise the core above, with a trailing ellipsis exactly when anything
/// of the trimmed text was cut away.
pub open spec fn title_spec(s: Seq<char>) -> Seq<char> {
    let t = trimmed_spec(s);
    if t.len() == 0 {
        "New chat"@
    } else if title_core(t) == t {
        title_core(t)
    } else {
        title_core(t) + "\u{2026}"@
    }
}

/// For trimmed, non-blank text the title core is a prefix of the text.
proof fn lemma_title_core_prefix(t: Seq<char>)
    requires
        t.len() > 0,
        !is_space_char(t.first()),
    ensures
        title_core(t) == t.take(title_core(t).len() as int),
        title_core(t).len() <= t.len(),
{
    let line = first_line_spec(t);
    lemma_first_line_is_prefix(t);
    assert(t.first() != '\n');
    assert(line.len() > 0 && line.first() == t.first());
    lemma_trim_start_noop(line);
    let lt = trim_end_spec(line);
    lemma_trim_end_prefix(line);
    assert(trimmed_spec(line) == lt);
    let core = title_core(t);
    assert(core == lt.take(
        if 80 <= lt.len() {
            80int
        } else {
            lt.len() as int
        },
    ));
    assert(core =~= t.take(core.len() as int));
}

/// Derive a conversation title from a message's text.
pub fn make_title(source: &str) -> (r: String)
    ensures
        r@ == title_spec(source@),
{
    let t = trim_str(source);
    if t.unicode_len() == 0 {
        return String::from_str("New chat");
    }
    let line = first_line(t);
    let lt = trim_str(line);
    let core = prefix_chars(lt, 80);
    let mut out = String::from_str(core);
    proof {
        lemma_trimmed_starts_nonspace(source@);
        lemma_title_core_prefix(t@);
        assert(core@ == title_core(t@));
    }
    if core.unicode_len() < t.unicode_len() {
        out.append("\u{2026}");
        proof {
            assert(core@ != t@);
        }
    } else {
        proof {
            assert(core@ == t@.take(core@.len() as int));
            assert(t@.take(t@.len() as int) =~= t@);
        }
    }
    out
}

/// A preview's text from one source text, defined for non-blank text: the
/// first line of the trimmed text, itself trimmed, at most 120 characters.
pub open spec fn preview_core(t: Seq<char>) -> Seq<char> {
    let lt = trimmed_spec(first_line_spec(t));
    lt.take(
        if 120 <= lt.len() {
            120int
        } else {
            lt.len() as int
        },
    )
}

/// Derive a list preview from a message's text: none for blank text.
pub fn make_preview(source: &str) -> (r: Option<String>)
    ensures
        trimmed_spec(source@).len() == 0 ==> r is None,
        trimmed_spec(source@).len() > 0 ==> (r matches Some(p) && p@ == preview_core(
            trimmed_spec(source@),
        )),
{
    let t = trim_str(source);
    if t.unicode_len() == 0 {
        return None;
    }
    let line = first_line(t);
    let lt = trim_str(line);
    Some(String::from_str(prefix_chars(lt, 120)))
}

/// Keep at most the last `limit` records, preserving order; no limit keeps
/// everything.
pub fn keep_last(records: Vec<ChatRecord>, limit: Option<usize>) -> (r: Vec<ChatRecord>)
    ensures
        match limit {
            None => r@ == records@,
            Some(l) => {
                if records@.len() <= l {
                    r@ == records@
                } else {
                    r@ == records@.skip(records@.len() - l)
                }
            },
        },
{
    match limit {
        Some(l) => {
            if records.len() > l {
                let mut records = records;
                let cut = records.len() - l;
                let kept = records.split_off(cut);
                kept
            } else {
                records
            }
        },
        None => records,
    }
}

/// The first stored timestamp of a session, in record order.
pub open spec fn first_timestamp(rs: Seq<RecordView>) -> Option<Seq<char>>
    decreases rs.len(),
{
    if rs.len() == 0 {
        None
    } else if rs.first().timestamp is Some {
        rs.first().timestamp
    } else {
        first_timestamp(rs.drop_first())
    }
}

/// The last stored timestamp of a session.
pub open spec fn last_timestamp(rs: Seq<RecordView>) -> Option<Seq<char>>
    decreases rs.len(),
{
    if rs.len() == 0 {
        None
    } else if rs.last().timestamp is Some {
        rs.last().timestamp
    } else {
        last_timestamp(rs.drop_last())
    }
}

/// Whether a record is a user turn with non-blank content.
pub open spec fn is_titled_user_record(r: RecordView) -> bool {
    eq_ascii_case_spec(r.role, "user"@) && trimmed_spec(r.content).len() > 0
}

/// The content of the first user record with non-blank content, the one a
/// session is titled after.
pub open spec fn first_user_content(rs: Seq<RecordView>) -> Option<Seq<char>>
    decreases rs.len(),
{
    if rs.len() == 0 {
        None
    } else if is_titled_user_record(rs.first()) {
        Some(rs.first().content)
    } else {
        first_user_content(rs.drop_first())
    }
}

/// The content of the last record with non-blank content, the one the
/// session's preview shows.
pub open spec fn last_nonblank_content(rs: Seq<RecordView>) -> Option<Seq<char>>
    decreases rs.len(),
{
    if rs.len() == 0 {
        None
    } else if trimmed_spec(rs.last().content).len() > 0 {
        Some(rs.last().content)
    } else {
        last_nonblank_content(rs.drop_last())
    }
}

/// The views of a record sequence.
pub open spec fn record_views(rs: Seq<ChatRecord>) -> Seq<RecordView> {
    rs.map_values(|r: ChatRecord| r@)
}

/// Clone an optional timestamp.
fn clone_opt_string(t: &Option<String>) -> (r: Option<String>)
    ensures
        t is None ==> r is None,
        t matches Some(s) ==> (r matches Some(c) && c@ == s@),
{
    match t {
        Some(s) => Some(String::from_str(s.as_str())),
        None => None,
    }
}

/// Summarize one session's records: the title comes from the first non-blank
/// user message, the preview from the last non-blank message, the created and
/// updated stamps from the first and last stamped records, and the count is
/// the number of records. A session with no records is a fresh `New chat`.
pub fn summarize_records(session_id: String, records: &Vec<ChatRecord>) -> (r: ConversationSummary)
    ensures
        r.session_id@ == session_id@,
        r.message_count == records@.len(),
        match first_timestamp(record_views(records@)) {
            Some(t) => (r.created_at matches Some(c) && c@ == t),
            None => r.created_at is None,
        },
        match last_timestamp(record_views(records@)) {
            Some(t) => (r.updated_at matches Some(u) && u@ == t),
            None => r.updated_at is None,
        },
        r.title@ == match first_user_content(record_views(records@)) {
            Some(c) => title_spec(c),
            None => "New chat"@,
        },
        match last_nonblank_content(record_views(records@)) {
            Some(c) => (r.preview matches Some(p) && p@ == preview_core(trimmed_spec(c))),
            None => r.preview is None,
        },
{
    let ghost views = record_views(records@);
    let n = records.len();

    let mut created_at: Option<String> = None;
    let mut i: usize = 0;
    proof {
        assert(views.skip(0) =~= views);
    }
    while i < n
        invariant_except_break
            created_at is None,
        invariant
            0 <= i <= n == views.len(),
            views == record_views(records@),
            first_timestamp(views) == first_timestamp(views.skip(i as int)),
        ensures
            match first_timestamp(views) {
                Some(t) => (created_at matches Some(c) && c@ == t),
                None => created_at is None,
            },
        decreases n - i,
    {
        proof {
            assert(views.skip(i as int).first() == views[i as int]);
            assert(views.skip(i as int).drop_first() =~= views.skip(i + 1));
        }
        if records[i].timestamp.is_some() {
            created_at = clone_opt_string(&records[i].timestamp);
            break ;
        }
        i = i + 1;
    }

    let mut updated_at: Option<String> = None;
    let mut j: usize = n;
    proof {
        assert(views.take(n as int) =~= views);
    }
    while j > 0
        invariant_except_break
            updated_at is None,
        invariant
            0 <= j <= n == views.len(),
            views == record_views(records@),
            last_timestamp(views) == last_timestamp(views.take(j as int)),
        ensures
            match last_timestamp(views) {
                Some(t) => (updated_at matches Some(u) && u@ == t),
                None => updated_at is None,
            },
        decreases j,
    {
        proof {
            assert(views.take(j as int).last() == views[j - 1]);
            assert(views.take(j as int).drop_last() =~= views.take(j - 1));
        }
        if records[j - 1].timestamp.is_some() {
            updated_at = clone_opt_string(&records[j - 1].timestamp);
            break ;
        }
        j = j - 1;
    }

    let mut title: Option<String> = None;
    let mut i: usize = 0;
    proof {
        assert(views.skip(0) =~= views);
    }
    while i < n
        invariant_except_break
            title is None,
        invariant
            0 <= i <= n == views.len(),
            views == record_views(records@),
            first_user_content(views) == first_user_content(views.skip(i as int)),
        ensures
            match first_user_content(views) {
                Some(c) => (title matches Some(t) && t@ == title_spec(c)),
                None => title is None,
            },
        decreases n - i,
    {
        proof {
            assert(views.skip(i as int).first() == views[i as int]);
            assert(views.skip(i as int).drop_first() =~= views.skip(i + 1));
        }
        let is_user = eq_ignore_ascii_case(records[i].role.as_str(), "user");
        if is_user && trim_str(records[i].content.as_str()).unicode_len() > 0 {
            title = Some(make_title(records[i].content.as_str()));
            break ;
        }
        i = i + 1;
    }
    let title = match title {
        Some(t) => t,
        None => String::from_str("New chat"),
    };

    let mut preview: Option<String> = None;
    let mut j: usize = n;
    proof {
        assert(views.take(n as int) =~= views);
    }
    while j > 0
        invariant_except_break
            preview is None,
        invariant
            0 <= j <= n == views.len(),
            views == record_views(records@),
            last_nonblank_content(views) == last_nonblank_content(views.take(j as int)),
        ensures
            match last_nonblank_content(views) {
                Some(c) => (preview matches Some(p) && p@ == preview_core(trimmed_spec(c))),
                None => preview is None,
            },
        decreases j,
    {
        proof {
            assert(views.take(j as int).last() == views[j - 1]);
            assert(views.take(j as int).drop_last() =~= views.take(j - 1));
        }
        if trim_str(records[j - 1].content.as_str()).unicode_len() > 0 {
            preview = make_preview(records[j - 1].content.as_str());
            break ;
        }
        j = j - 1;
    }

    ConversationSummary {
        session_id,
        title,
        created_at,
        updated_at,
        message_count: n,
        preview,
    }
}

/// Display order of the conversation list: most recently updated first,
/// summaries without any timestamp after all stamped ones, ties broken by
/// session id.
pub open spec fn summary_le(a: ConversationSummary, b: ConversationSummary) -> bool {
    match (a.updated_at, b.updated_at) {
        (Some(x), Some(y)) => lex_le(y@, x@),
        (Some(_), None) => true,
        (None, Some(_)) => false,
        (None, None) => lex_le(a.session_id@, b.session_id@),
    }
}

/// The display order is total.
proof fn lemma_summary_le_total(a: ConversationSummary, b: ConversationSummary)
    ensures
        summary_le(a, b) || summary_le(b, a),
{
    match (a.updated_at, b.updated_at) {
        (Some(x), Some(y)) => lemma_lex_le_total(y@, x@),
        (None, None) => lemma_lex_le_total(a.session_id@, b.session_id@),
        _ => (),
    }
}

/// The display order is transitive.
proof fn lemma_summary_le_trans(
    a: ConversationSummary,
    b: ConversationSummary,
    c: ConversationSummary,
)
    requires
        summary_le(a, b),
        summary_le(b, c),
    ensures
        summary_le(a, c),
{
    match (a.updated_at, b.updated_at, c.updated_at) {
        (Some(x), Some(y), Some(z)) => lemma_lex_le_trans(z@, y@, x@),
        (None, None, None) => lemma_lex_le_trans(a.session_id@, b.session_id@, c.session_id@),
        _ => (),
    }
}

/// Executable form of the display order.
fn summary_le_exec(a: &ConversationSummary, b: &ConversationSummary) -> (r: bool)
    ensures
        r == summary_le(*a, *b),
{
    match (&a.updated_at, &b.updated_at) {
        (Some(x), Some(y)) => str_lex_le(y.as_str(), x.as_str()),
        (Some(_), None) => true,
        (None, Some(_)) => false,
        (None, None) => str_lex_le(a.session_id.as_str(), b.session_id.as_str()),
    }
}

/// A sequence of summaries standing in display order.
pub open spec fn summaries_ordered(s: Seq<ConversationSummary>) -> bool {
    forall|i: int, j: int| 0 <= i < j < s.len() ==> summary_le(s[i], s[j])
}

/// Inserting an element anywhere adds exactly it to the sequence's multiset.
proof fn lemma_insert_to_multiset(s: Seq<ConversationSummary>, pos: int, x: ConversationSummary)
    requires
        0 <= pos <= s.len(),
    ensures
        s.insert(pos, x).to_multiset() == s.to_multiset().insert(x),
{
    broadcast use vstd::multiset::group_multiset_axioms;
    broadcast use vstd::seq_lib::group_to_multiset_ensures;

    let single = Seq::<ConversationSummary>::empty().push(x);
    assert(s.insert(pos, x) =~= s.take(pos) + (single + s.skip(pos)));
    lemma_multiset_commutative(s.take(pos), single + s.skip(pos));
    lemma_multiset_commutative(single, s.skip(pos));
    assert(s =~= s.take(pos) + s.skip(pos));
    lemma_multiset_commutative(s.take(pos), s.skip(pos));
    assert(single.to_multiset() =~= Multiset::<ConversationSummary>::empty().insert(x));
    assert_multisets_equal!(s.insert(pos, x).to_multiset(), s.to_multiset().insert(x));
}

/// Sort a conversation list into display order. The result holds exactly the
/// given summaries.
pub fn sort_summaries(list: Vec<ConversationSummary>) -> (r: Vec<ConversationSummary>)
    ensures
        summaries_ordered(r@),
        r@.to_multiset() == list@.to_multiset(),
{
    broadcast use vstd::multiset::group_multiset_axioms;
    broadcast use vstd::seq_lib::group_to_multiset_ensures;

    let mut src = list;
    let mut out: Vec<ConversationSummary> = Vec::new();
    proof {
        assert_multisets_equal!(out@.to_multiset().add(src@.to_multiset()), list@.to_multiset());
    }
    while src.len() > 0
        invariant
            summaries_ordered(out@),
            out@.to_multiset().add(src@.to_multiset()) == list@.to_multiset(),
        decreases src@.len(),
    {
        let ghost src_before = src@;
        let ghost out_before = out@;
        let x = src.remove(0);

        let n = out.len();
        let mut j: usize = 0;
        while j < n && summary_le_exec(&out[j], &x)
            invariant
                0 <= j <= n == out@.len(),
                forall|i: int| 0 <= i < j ==> summary_le(out@[i], x),
            decreases n - j,
        {
            j = j + 1;
        }

        proof {
            let s = out@;
            let s2 = s.insert(j as int, x);
            s.insert_ensures(j as int, x);
            assert forall|p: int, q: int| 0 <= p < q < s2.len() implies summary_le(
                s2[p],
                s2[q],
            ) by {
                if q < j {
                } else if q == j {
                } else {
                    if p < j {
                    } else if p == j {
                        lemma_summary_le_total(s[j as int], x);
                        if j < q - 1 {
                            lemma_summary_le_trans(x, s[j as int], s[q - 1]);
                        }
                    }
                }
            }
            lemma_insert_to_multiset(s, j as int, x);
            src_before.to_multiset_ensures();
            assert(src_before.contains(x)) by {
                assert(src_before[0] == x);
            }
            assert(src_before.to_multiset().count(x) > 0);
            assert(src@ == src_before.remove(0));
            assert(src@.to_multiset() == src_before.to_multiset().remove(x));
            assert_multisets_equal!(
                out_before.to_multiset().insert(x).add(src_before.to_multiset().remove(x)),
                out_before.to_multiset().add(src_before.to_multiset())
            );
        }
        out.insert(j, x);
    }
    out
}

} // verus!
