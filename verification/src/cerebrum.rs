//! The decisions of the cerebrum client: scopes, session ids, and the
//! reading of recall results.

use vstd::prelude::*;
use crate::clock::{Timestamp, TimestampView, is_reading, read_clock};
use crate::error::{CoreError, CoreErrorView};
use crate::text::{concat2, concat3, opt_view, signed_decimal, signed_decimal_text};

verus! {

/// One memory of a recall result, as far as the client reads it.
#[derive(Debug)]
pub struct RecallEntry {
    /// The memory's id, when it is a string.
    pub id: Option<String>,
    /// The memory's scope, when it is a string.
    pub scope: Option<String>,
    /// The memory's content, when it is a string.
    pub content: Option<String>,
}

/// The mathematical value of a [`RecallEntry`].
pub struct RecallEntryView {
    pub id: Option<Seq<char>>,
    pub scope: Option<Seq<char>>,
    pub content: Option<Seq<char>>,
}

impl View for RecallEntry {
    type V = RecallEntryView;

    open spec fn view(&self) -> RecallEntryView {
        RecallEntryView {
            id: opt_view(self.id),
            scope: opt_view(self.scope),
            content: opt_view(self.content),
        }
    }
}

/// The views of a sequence of recall entries.
pub open spec fn entry_views(entries: Seq<RecallEntry>) -> Seq<RecallEntryView> {
    entries.map_values(|e: RecallEntry| e@)
}

/// The scope under which a plan (or a change manifest) is stored: `"plan:<ref>"`.
pub open spec fn plan_scope_of(plan_ref: Seq<char>) -> Seq<char> {
    "plan:"@ + plan_ref
}

/// The scope under which a plan (or a change manifest) is stored: `"plan:<ref>"`.
pub fn plan_scope(plan_ref: &str) -> (s: String)
    ensures
        s@ == plan_scope_of(plan_ref@),
{
    concat2("plan:", plan_ref)
}

/// The index of the first entry whose scope is `scope`, if any.
pub open spec fn first_in_scope(entries: Seq<RecallEntryView>, scope: Seq<char>) -> Option<int>
    decreases entries.len(),
{
    if entries.len() == 0 {
        None
    } else if entries[0].scope == Some(scope) {
        Some(0)
    } else {
        match first_in_scope(entries.drop_first(), scope) {
            Some(i) => Some(i + 1),
            None => None,
        }
    }
}

/// The plan body of a recall result: the content of the first entry in the
/// exact scope `"plan:<ref>"`; an error when there is none, or when that
/// entry has no content.
pub open spec fn plan_in(entries: Seq<RecallEntryView>, plan_ref: Seq<char>) -> Result<
    Seq<char>,
    CoreErrorView,
> {
    match first_in_scope(entries, plan_scope_of(plan_ref)) {
        Some(i) => match entries[i].content {
            Some(c) => Ok(c),
            None => Err(CoreErrorView::NotFound("plan_ref '"@ + plan_ref + "'"@)),
        },
        None => Err(CoreErrorView::NotFound("plan_ref '"@ + plan_ref + "'"@)),
    }
}

proof fn lemma_first_in_scope_step(entries: Seq<RecallEntryView>, scope: Seq<char>, i: int)
    requires
        0 <= i < entries.len(),
        forall|j: int| 0 <= j < i ==> entries[j].scope != Some(scope),
    ensures
        first_in_scope(entries, scope) == (match first_in_scope(entries.skip(i), scope) {
            Some(k) => Some(k + i),
            None => None::<int>,
        }),
    decreases i,
{
    if i > 0 {
        assert(entries.skip(1).skip(i - 1) == entries.skip(i));
        lemma_first_in_scope_step(entries.skip(1), scope, i - 1);
        assert(entries.drop_first() == entries.skip(1));
    } else {
        assert(entries.skip(0) == entries);
    }
}

/// Picks the plan body out of a recall result: the content of the first
/// entry in the exact scope `"plan:<ref>"`, so that memories of other scopes
/// never stand in for the plan. [`CoreError::NotFound`] when no entry has
/// that scope.
pub fn find_plan(entries: &Vec<RecallEntry>, plan_ref: &str) -> (r: Result<String, CoreError>)
    ensures
        match r {
            Ok(c) => plan_in(entry_views(entries@), plan_ref@) == Ok::<Seq<char>, CoreErrorView>(c@),
            Err(e) => plan_in(entry_views(entries@), plan_ref@) == Err::<Seq<char>, CoreErrorView>(e@),
        },
{
    let scope = plan_scope(plan_ref);
    let ghost es = entry_views(entries@);
    let mut i: usize = 0;
    while i < entries.len()
        invariant
            i <= entries.len(),
            es == entry_views(entries@),
            scope@ == plan_scope_of(plan_ref@),
            forall|j: int| 0 <= j < i ==> es[j].scope != Some(scope@),
        decreases entries.len() - i,
    {
        let matches = match &entries[i].scope {
            Some(s) => *s == scope,
            None => false,
        };
        if matches {
            proof {
                lemma_first_in_scope_step(es, scope@, i as int);
                assert(es.skip(i as int)[0] == es[i as int]);
            }
            return match &entries[i].content {
                Some(c) => Ok(c.clone()),
                None => Err(CoreError::NotFound(concat3("plan_ref '", plan_ref, "'"))),
            };
        }
        i += 1;
    }
    proof {
        if first_in_scope(es, scope@) is Some {
            lemma_first_in_scope_none(es, scope@);
        }
    }
    Err(CoreError::NotFound(concat3("plan_ref '", plan_ref, "'")))
}

proof fn lemma_first_in_scope_none(entries: Seq<RecallEntryView>, scope: Seq<char>)
    requires
        forall|j: int| 0 <= j < entries.len() ==> entries[j].scope != Some(scope),
    ensures
        first_in_scope(entries, scope) is None,
    decreases entries.len(),
{
    if entries.len() > 0 {
        assert forall|j: int| 0 <= j < entries.drop_first().len() implies entries.drop_first()[j].scope
            != Some(scope) by {
            assert(entries.drop_first()[j] == entries[j + 1]);
        }
        lemma_first_in_scope_none(entries.drop_first(), scope);
    }
}

/// The string ids of the entries, in order: the memories that a session
/// cleanup forgets one by one.
pub open spec fn entry_ids(entries: Seq<RecallEntryView>) -> Seq<Seq<char>>
    decreases entries.len(),
{
    if entries.len() == 0 {
        Seq::empty()
    } else {
        let rest = entry_ids(entries.drop_last());
        match entries.last().id {
            Some(id) => rest.push(id),
            None => rest,
        }
    }
}

/// The ids of the memories that a session cleanup forgets, in order.
pub fn ids_to_forget(entries: &Vec<RecallEntry>) -> (ids: Vec<String>)
    ensures
        ids@.map_values(|s: String| s@) == entry_ids(entry_views(entries@)),
{
    let ghost es = entry_views(entries@);
    let mut ids: Vec<String> = Vec::new();
    let mut i: usize = 0;
    while i < entries.len()
        invariant
            i <= entries.len(),
            es == entry_views(entries@),
            ids@.map_values(|s: String| s@) == entry_ids(es.take(i as int)),
        decreases entries.len() - i,
    {
        assert(es.take(i + 1).drop_last() == es.take(i as int));
        let ghost before = ids@.map_values(|s: String| s@);
        match &entries[i].id {
            Some(id) => {
                ids.push(id.clone());
                assert(ids@.map_values(|s: String| s@) =~= before.push(es[i as int].id->0));
            },
            None => {},
        }
        i += 1;
    }
    assert(es.take(entries.len() as int) == es);
    ids
}

/// What a cerebrum tool reply says, read as JSON: `None` when the text is
/// not JSON; otherwise the entries of its `"results"` array (none when it has
/// no such array), each with its `"id"`, `"scope"` and `"content"` where they
/// are strings.
pub uninterp spec fn recall_reply(text: Seq<char>) -> Option<Seq<RecallEntryView>>;

/// Parses the text of a cerebrum tool reply with `serde_json::from_str` into
/// a `serde_json::Value`, and converts its `"results"` array (missing or not
/// an array: empty) entry by entry, reading `"id"`, `"scope"` and `"content"`
/// with `Value::get` and `Value::as_str`. The contract names the outcome
/// [`recall_reply`] and claims only that a parse error is reported as
/// [`CoreError::Json`].
#[verifier::external_body]
fn parse_recall_reply(text: &str) -> (r: Result<Vec<RecallEntry>, CoreError>)
    ensures
        match r {
            Ok(v) => recall_reply(text@) == Some(entry_views(v@)),
            Err(e) => recall_reply(text@) is None && e is Json,
        },
{
    let value: serde_json::Value = match serde_json::from_str(text) {
        Ok(v) => v,
        Err(e) => return Err(CoreError::Json(e.to_string())),
    };
    let none = Vec::new();
    let results = value.get("results").and_then(serde_json::Value::as_array).unwrap_or(&none);
    let text_of = |r: &serde_json::Value, k: &str| r.get(k).and_then(serde_json::Value::as_str).map(str::to_string);
    Ok(results.iter().map(|r| RecallEntry {
        id: text_of(r, "id"),
        scope: text_of(r, "scope"),
        content: text_of(r, "content"),
    }).collect())
}

/// Checks that a cerebrum tool reply is JSON: [`CoreError::Json`] when it is
/// not.
pub fn check_reply(text: &str) -> (r: Result<(), CoreError>)
    ensures
        r is Ok <==> recall_reply(text@) is Some,
        r matches Err(e) ==> e is Json,
{
    match parse_recall_reply(text) {
        Ok(_) => Ok(()),
        Err(e) => Err(e),
    }
}

/// The plan body in the text of a `recall_by_scope` reply: a
/// [`CoreError::Json`] when the text is not JSON, otherwise what
/// [`find_plan`] picks out of its entries.
pub fn plan_from_reply(text: &str, plan_ref: &str) -> (r: Result<String, CoreError>)
    ensures
        match recall_reply(text@) {
            None => r matches Err(e) && e is Json,
            Some(es) => match r {
                Ok(c) => plan_in(es, plan_ref@) == Ok::<Seq<char>, CoreErrorView>(c@),
                Err(e) => plan_in(es, plan_ref@) == Err::<Seq<char>, CoreErrorView>(e@),
            },
        },
{
    match parse_recall_reply(text) {
        Ok(entries) => find_plan(&entries, plan_ref),
        Err(e) => Err(e),
    }
}

/// The ids to forget in the text of a `recall_by_scope` reply for a
/// session: a [`CoreError::Json`] when the text is not JSON, otherwise what
/// [`ids_to_forget`] gives for its entries.
pub fn ids_from_reply(text: &str) -> (r: Result<Vec<String>, CoreError>)
    ensures
        match recall_reply(text@) {
            None => r matches Err(e) && e is Json,
            Some(es) => r matches Ok(ids) && ids@.map_values(|s: String| s@) == entry_ids(es),
        },
{
    match parse_recall_reply(text) {
        Ok(entries) => Ok(ids_to_forget(&entries)),
        Err(e) => Err(e),
    }
}

/// The id of a new session for a plan at the clock reading `now`:
/// `"session:<plan_ref>:<nanos>"`.
pub open spec fn session_id_of(plan_ref: Seq<char>, now: TimestampView) -> Seq<char> {
    "session:"@ + plan_ref + ":"@ + signed_decimal(
        match now.nanos {
            Some(n) => n as int,
            None => 0,
        },
    )
}

/// Mints a session id for a plan, locally and infallibly:
/// `"session:<plan_ref>:<nanos>"`, the nanoseconds read from the clock.
pub fn new_session_id(plan_ref: &str) -> (s: String)
    ensures
        exists|now: TimestampView| is_reading(now) && s@ == #[trigger] session_id_of(plan_ref@, now),
{
    let now = read_clock();
    let nanos: i64 = match now.nanos {
        Some(n) => n,
        None => 0,
    };
    let digits = signed_decimal_text(nanos);
    let mut s = concat3("session:", plan_ref, ":");
    s.append(digits.as_str());
    assert(s@ == session_id_of(plan_ref@, now@));
    s
}

} // verus!
