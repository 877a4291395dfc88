//! The audit chain: every event holds the digest of the one before it.

use vstd::prelude::*;
use crate::each::find_last;
use crate::evidence::files::{
    audit_journal_path, audit_path, bytes_seen, failure, note_failure, seen, sha256_bytes,
    sha256_file, sha256_hex,
};
use crate::evidence::lines::{
    NEWLINE, accept, accepted, journal_lines, law_appended_lines_are_read_back,
    law_one_line_of_text_is_one_line_of_bytes,
};
use crate::evidence::types::{
    EvidenceAuditEvent, EvidenceAuditEventView, EvidenceAuditVerifyReport,
    EvidenceAuditVerifyReportView,
};
use crate::json::{
    json_member, json_member_spec, json_object, json_object_spec, json_quoted,
    law_quoted_text_stays_on_one_line,
};
use crate::list::{last_where, law_last_where, note, noted, put};
use crate::number::{decimal, decimal_text, lemma_digits_of_decimal, sum_text};
use crate::outside::json_quote;
use crate::pairs::{keys_increase, law_values_read_back, set_value, value_at, with_pair};
use crate::text::{cat2, cat3, cat4, ends, joined, same, step};

verus! {

broadcast use {vstd::seq::group_seq_axioms, vstd::string::group_string_axioms};

/// The version of the audit chain's format.
pub open spec fn audit_schema() -> Seq<char> {
    "opsctl.evidence_audit_chain.v1"@
}

/// The digest that stands before the first event.
pub open spec fn no_digest() -> Seq<char> {
    "0000000000000000000000000000000000000000000000000000000000000000"@
}

/// An event as members of a JSON object.
#[verifier::opaque]
pub open spec fn event_members(e: EvidenceAuditEventView) -> Seq<Seq<char>> {
    Seq::<Seq<char>>::empty().push(
        json_member_spec("schema_version"@, json_quoted(e.schema_version)),
    ).push(
        json_member_spec("sequence"@, decimal(e.sequence as nat)),
    ).push(
        json_member_spec("ts"@, json_quoted(e.ts)),
    ).push(
        json_member_spec("kind"@, json_quoted(e.kind)),
    ).push(
        json_member_spec("actor"@, json_quoted(e.actor)),
    ).push(
        json_member_spec("subject"@, json_quoted(e.subject)),
    ).push(
        json_member_spec("artifact_path"@, json_quoted(e.artifact_path)),
    ).push(
        json_member_spec("artifact_sha256"@, json_quoted(e.artifact_sha256)),
    ).push(
        json_member_spec("previous_event_sha256"@, json_quoted(e.previous_event_sha256)),
    ).push(
        json_member_spec("event_sha256"@, json_quoted(e.event_sha256)),
    )
}

/// An event as members of a JSON object.
fn list_event_members(e: &EvidenceAuditEvent) -> (r: Vec<String>)
    ensures
        r.deep_view() == event_members(e.deep_view()),
{
    let mut list: Vec<String> = Vec::new();
    proof {
        reveal(event_members);
        assert(list.deep_view() =~= Seq::<Seq<char>>::empty());
    }
    put(&mut list, &json_member("schema_version", &json_quote(&e.schema_version)));
    put(&mut list, &json_member("sequence", &decimal_text(e.sequence)));
    put(&mut list, &json_member("ts", &json_quote(&e.ts)));
    put(&mut list, &json_member("kind", &json_quote(&e.kind)));
    put(&mut list, &json_member("actor", &json_quote(&e.actor)));
    put(&mut list, &json_member("subject", &json_quote(&e.subject)));
    put(&mut list, &json_member("artifact_path", &json_quote(&e.artifact_path)));
    put(&mut list, &json_member("artifact_sha256", &json_quote(&e.artifact_sha256)));
    put(&mut list, &json_member("previous_event_sha256", &json_quote(&e.previous_event_sha256)));
    put(&mut list, &json_member("event_sha256", &json_quote(&e.event_sha256)));
    list
}

/// An event as compact JSON.
pub open spec fn event_text(e: EvidenceAuditEventView) -> Seq<char> {
    json_object_spec(event_members(e))
}

proof fn lemma_two_without(a: Seq<char>, b: Seq<char>, c: char)
    requires
        !a.contains(c),
        !b.contains(c),
    ensures
        !(a + b).contains(c),
{
    if (a + b).contains(c) {
        let k = choose|k: int| 0 <= k < (a + b).len() && (a + b)[k] == c;
        if k < a.len() {
            assert(a[k] == c);
        } else {
            assert(b[k - a.len()] == c);
        }
    }
}

proof fn lemma_joined_without(parts: Seq<Seq<char>>, separator: Seq<char>, c: char)
    requires
        forall|i: int| 0 <= i < parts.len() ==> !(#[trigger] parts[i]).contains(c),
        !separator.contains(c),
    ensures
        !joined(parts, separator).contains(c),
    decreases parts.len(),
{
    if parts.len() > 1 {
        let front = parts.drop_last();
        assert forall|i: int| 0 <= i < front.len() implies !(#[trigger] front[i]).contains(c) by {
            assert(front[i] == parts[i]);
        }
        lemma_joined_without(front, separator, c);
        lemma_two_without(joined(front, separator), separator, c);
        lemma_two_without(joined(front, separator) + separator, parts.last(), c);
    } else if parts.len() == 1 {
        assert(!parts[0].contains(c));
    }
}

proof fn lemma_member_without(name: Seq<char>, value: Seq<char>)
    requires
        !name.contains('\n'),
        !value.contains('\n'),
    ensures
        !json_member_spec(name, value).contains('\n'),
{
    reveal_strlit("\"");
    reveal_strlit("\":");
    lemma_two_without("\""@, name, '\n');
    lemma_two_without("\""@ + name, "\":"@, '\n');
    lemma_two_without("\""@ + name + "\":"@, value, '\n');
}

proof fn lemma_event_text_is_one_line(e: EvidenceAuditEventView)
    ensures
        !event_text(e).contains('\n'),
{
    reveal(event_members);
    law_quoted_text_stays_on_one_line(e.schema_version);
    law_quoted_text_stays_on_one_line(e.ts);
    law_quoted_text_stays_on_one_line(e.kind);
    law_quoted_text_stays_on_one_line(e.actor);
    law_quoted_text_stays_on_one_line(e.subject);
    law_quoted_text_stays_on_one_line(e.artifact_path);
    law_quoted_text_stays_on_one_line(e.artifact_sha256);
    law_quoted_text_stays_on_one_line(e.previous_event_sha256);
    law_quoted_text_stays_on_one_line(e.event_sha256);
    reveal_strlit("schema_version");
    reveal_strlit("sequence");
    reveal_strlit("ts");
    reveal_strlit("kind");
    reveal_strlit("actor");
    reveal_strlit("subject");
    reveal_strlit("artifact_path");
    reveal_strlit("artifact_sha256");
    reveal_strlit("previous_event_sha256");
    reveal_strlit("event_sha256");
    lemma_digits_of_decimal(e.sequence as nat);
    lemma_member_without("schema_version"@, json_quoted(e.schema_version));
    lemma_member_without("sequence"@, decimal(e.sequence as nat));
    lemma_member_without("ts"@, json_quoted(e.ts));
    lemma_member_without("kind"@, json_quoted(e.kind));
    lemma_member_without("actor"@, json_quoted(e.actor));
    lemma_member_without("subject"@, json_quoted(e.subject));
    lemma_member_without("artifact_path"@, json_quoted(e.artifact_path));
    lemma_member_without("artifact_sha256"@, json_quoted(e.artifact_sha256));
    lemma_member_without("previous_event_sha256"@, json_quoted(e.previous_event_sha256));
    lemma_member_without("event_sha256"@, json_quoted(e.event_sha256));
    reveal_strlit(",");
    reveal_strlit("{");
    reveal_strlit("}");
    let members = event_members(e);
    lemma_joined_without(members, ","@, '\n');
    lemma_two_without("{"@, joined(members, ","@), '\n');
    lemma_two_without("{"@ + joined(members, ","@), "}"@, '\n');
}

/// An event as a line of the journal, without the newline that ends it.
pub fn audit_event_line(e: &EvidenceAuditEvent) -> (r: String)
    ensures
        r@ == event_text(e.deep_view()),
        !r@.contains('\n'),
        r@.len() > 0,
{
    let list = list_event_members(e);
    proof {
        lemma_event_text_is_one_line(e.deep_view());
        reveal_strlit("{");
    }
    json_object(&list)
}

/// Whether a journal holds whole lines only.
pub open spec fn is_whole(journal: Seq<u8>) -> bool {
    journal.len() == 0 || journal.last() == NEWLINE
}

/// The bytes that are appended to the journal for an event. Whatever whole lines the
/// journal holds, the event is read back after all of them.
pub fn audit_entry(e: &EvidenceAuditEvent) -> (r: Vec<u8>)
    ensures
        r@ == vstd::utf8::encode_utf8(event_text(e.deep_view())).push(NEWLINE),
        forall|journal: Seq<u8>|
            is_whole(journal) ==> is_whole(journal + r@) && #[trigger] journal_lines(journal + r@)
                == journal_lines(journal).push(
                vstd::utf8::encode_utf8(event_text(e.deep_view())),
            ),
{
    let text = audit_event_line(e);
    let ghost line = vstd::utf8::encode_utf8(text@);
    let mut bytes = vstd::slice::slice_to_vec(text.as_str().as_bytes());
    bytes.push(NEWLINE);
    proof {
        law_one_line_of_text_is_one_line_of_bytes(text@);
        vstd::utf8::encode_utf8_decode_utf8(text@);
        assert(line.len() > 0);
        assert forall|journal: Seq<u8>| is_whole(journal) implies is_whole(journal + bytes@)
            && #[trigger] journal_lines(journal + bytes@) == journal_lines(journal).push(line) by {
            law_appended_lines_are_read_back(journal, line);
            assert(journal + bytes@ =~= journal + line + seq![NEWLINE]);
        }
    }
    bytes
}

/// An event before it is sealed.
pub open spec fn unsealed(e: EvidenceAuditEventView) -> EvidenceAuditEventView {
    EvidenceAuditEventView { event_sha256: Seq::empty(), ..e }
}

/// The digest that seals an event: SHA-256 of its JSON without a seal, in
/// hexadecimal.
pub open spec fn event_digest(e: EvidenceAuditEventView) -> Seq<char> {
    sha256_hex(vstd::utf8::encode_utf8(event_text(unsealed(e))))
}

/// The digest that seals an event.
pub fn audit_event_hash(event: &EvidenceAuditEvent) -> (r: String)
    ensures
        r@ == event_digest(event.deep_view()),
{
    let bare = EvidenceAuditEvent { event_sha256: String::new(), ..event.clone() };
    proof {
        assert(bare.deep_view() =~= unsealed(event.deep_view()));
    }
    let text = audit_event_line(&bare);
    sha256_bytes(text.as_str().as_bytes())
}

/// The digest that the event at `i` has to name as the one before it.
pub open spec fn digest_before(events: Seq<EvidenceAuditEventView>, i: int) -> Seq<char> {
    if i == 0 {
        no_digest()
    } else {
        events[i - 1].event_sha256
    }
}

/// Whether an event follows `n` others, the last of them with this digest.
pub open spec fn event_fits(e: EvidenceAuditEventView, n: int, previous: Seq<char>) -> bool {
    &&& e.sequence == n + 1
    &&& e.previous_event_sha256 == previous
    &&& e.event_sha256 == event_digest(e)
}

/// Whether the event at `i` is in its place and as it was sealed.
pub open spec fn event_is_valid(events: Seq<EvidenceAuditEventView>, i: int) -> bool {
    event_fits(events[i], i, digest_before(events, i))
}

/// Whether every event is in its place and as it was sealed.
pub open spec fn chain_is_valid(events: Seq<EvidenceAuditEventView>) -> bool {
    forall|i: int| 0 <= i < events.len() ==> #[trigger] event_is_valid(events, i)
}

/// Whether the first break of a chain is at `i`.
pub open spec fn breaks_at(events: Seq<EvidenceAuditEventView>, i: int) -> bool {
    &&& 0 <= i < events.len()
    &&& !event_is_valid(events, i)
    &&& forall|j: int| 0 <= j < i ==> #[trigger] event_is_valid(events, j)
}

/// Where a chain is broken first, if it is.
pub open spec fn chain_break(events: Seq<EvidenceAuditEventView>) -> Option<int> {
    if chain_is_valid(events) {
        None
    } else {
        Some(choose|i: int| breaks_at(events, i))
    }
}

proof fn lemma_chain_break(events: Seq<EvidenceAuditEventView>, i: int)
    requires
        breaks_at(events, i),
    ensures
        chain_break(events) == Some(i),
{
    let k = choose|k: int| breaks_at(events, k);
    assert(breaks_at(events, k));
    if k < i {
        assert(event_is_valid(events, k));
    }
    if i < k {
        assert(event_is_valid(events, i));
    }
}

/// Where a chain is broken first, if it is.
pub fn find_chain_break(events: &Vec<EvidenceAuditEvent>) -> (r: Option<usize>)
    ensures
        match chain_break(events.deep_view()) {
            Some(i) => r is Some && r->0 == i && 0 <= i < events@.len(),
            None => r is None,
        },
{
    let ghost all = events.deep_view();
    let mut i: usize = 0;
    while i < events.len()
        invariant
            i <= events@.len(),
            all == events.deep_view(),
            forall|j: int| 0 <= j < i ==> #[trigger] event_is_valid(all, j),
        decreases events@.len() - i,
    {
        let event = &events[i];
        let ghost e = event.deep_view();
        proof {
            assert(all[i as int] == e);
        }
        let fits = if i == 0 {
            same(
                &event.previous_event_sha256,
                "0000000000000000000000000000000000000000000000000000000000000000",
            )
        } else {
            proof {
                assert(all[i - 1] == events@[i - 1].deep_view());
            }
            same(&event.previous_event_sha256, &events[i - 1].event_sha256)
        };
        if event.sequence != i as u64 + 1 || !fits || !same(
            &event.event_sha256,
            &audit_event_hash(event),
        ) {
            proof {
                assert(!event_is_valid(all, i as int));
                lemma_chain_break(all, i as int);
            }
            return Some(i);
        }
        proof {
            assert(event_is_valid(all, i as int));
        }
        i = i + 1;
    }
    None
}

/// Why nothing is appended to a chain.
pub open spec fn chain_refused(events: Seq<EvidenceAuditEventView>) -> Option<Seq<char>> {
    match chain_break(events) {
        Some(i) => Some(
            "refusing to append to invalid audit chain at event "@ + decimal((i + 1) as nat),
        ),
        None => None,
    }
}

/// Refuses a chain that is broken.
pub fn validate_chain(events: &Vec<EvidenceAuditEvent>) -> (r: Result<(), String>)
    ensures
        match chain_refused(events.deep_view()) {
            Some(words) => r is Err && r->Err_0@ == words,
            None => r is Ok,
        },
{
    match find_chain_break(events) {
        Some(i) => Err(
            cat2("refusing to append to invalid audit chain at event ", &sum_text(i, 1)),
        ),
        None => Ok(()),
    }
}

/// The chain that was read, if it could be read and is whole.
pub open spec fn checked_chain(
    events: Result<Seq<EvidenceAuditEventView>, Seq<char>>,
) -> Result<Seq<EvidenceAuditEventView>, Seq<char>> {
    match events {
        Ok(all) => match chain_refused(all) {
            Some(words) => Err(words),
            None => Ok(all),
        },
        Err(words) => Err(words),
    }
}

/// The chain that was read, if it could be read and is whole.
pub fn check_chain<'a>(events: &'a Result<Vec<EvidenceAuditEvent>, String>) -> (r: Result<
    &'a Vec<EvidenceAuditEvent>,
    String,
>)
    ensures
        match checked_chain(seen(*events)) {
            Ok(all) => r is Ok && r->Ok_0.deep_view() == all,
            Err(words) => r is Err && r->Err_0@ == words,
        },
{
    match events {
        Ok(all) => match validate_chain(all) {
            Ok(_) => Ok(all),
            Err(words) => Err(words),
        },
        Err(words) => Err(words.clone()),
    }
}

// ---------------------------------------------------------------------------
// Reading and appending
// ---------------------------------------------------------------------------

/// Whether an event is of another format.
pub open spec fn foreign_event() -> spec_fn(EvidenceAuditEventView) -> bool {
    |e: EvidenceAuditEventView| e.schema_version != audit_schema()
}

/// The events of a journal, given what each line holds. A line that cannot be read
/// as an event is `None`.
pub fn read_audit_events(lines: Vec<Option<EvidenceAuditEvent>>) -> (r: Result<
    Vec<EvidenceAuditEvent>,
    String,
>)
    ensures
        seen(r) == accepted(
            lines.deep_view(),
            foreign_event(),
            "invalid audit chain line "@,
            "unsupported audit chain schema on line "@,
        ),
{
    accept(
        lines,
        |e: &EvidenceAuditEvent| -> (b: bool)
            ensures
                b == (e.deep_view().schema_version != audit_schema())
            { !same(&e.schema_version, "opsctl.evidence_audit_chain.v1") },
        Ghost(foreign_event()),
        "invalid audit chain line ",
        "unsupported audit chain schema on line ",
    )
}

/// The number of the event after these.
pub open spec fn next_sequence(events: Seq<EvidenceAuditEventView>) -> u64 {
    if events.len() == 0 {
        1
    } else if events.last().sequence == u64::MAX {
        u64::MAX
    } else {
        (events.last().sequence + 1) as u64
    }
}

/// The event that is appended to these.
pub open spec fn next_event(
    events: Seq<EvidenceAuditEventView>,
    kind: Seq<char>,
    actor: Seq<char>,
    subject: Seq<char>,
    artifact: Seq<char>,
    artifact_sha256: Seq<char>,
    ts: Seq<char>,
) -> EvidenceAuditEventView {
    let bare = EvidenceAuditEventView {
        schema_version: audit_schema(),
        sequence: next_sequence(events),
        ts,
        kind,
        actor,
        subject,
        artifact_path: artifact,
        artifact_sha256,
        previous_event_sha256: digest_before(events, events.len() as int),
        event_sha256: Seq::empty(),
    };
    EvidenceAuditEventView { event_sha256: event_digest(bare), ..bare }
}

/// The event that is appended for an artifact, or why none is.
pub open spec fn appended_event(
    events: Result<Seq<EvidenceAuditEventView>, Seq<char>>,
    kind: Seq<char>,
    actor: Seq<char>,
    subject: Seq<char>,
    artifact: Seq<char>,
    content: Result<Seq<u8>, Seq<char>>,
    ts: Seq<char>,
) -> Result<EvidenceAuditEventView, Seq<char>> {
    match content {
        Ok(bytes) => match checked_chain(events) {
            Ok(all) => Ok(
                next_event(all, kind, actor, subject, artifact, sha256_hex(bytes), ts),
            ),
            Err(words) => Err(words),
        },
        Err(words) => Err(words),
    }
}

/// The event that is appended for an artifact, or why none is: the artifact or the
/// chain cannot be read, or the chain is broken.
pub fn append_audit_event(
    events: &Result<Vec<EvidenceAuditEvent>, String>,
    kind: &str,
    actor: &str,
    subject: &str,
    artifact: &str,
    content: &Result<Vec<u8>, String>,
    ts: &str,
) -> (r: Result<EvidenceAuditEvent, String>)
    ensures
        seen(r) == appended_event(
            seen(*events),
            kind@,
            actor@,
            subject@,
            artifact@,
            bytes_seen(*content),
            ts@,
        ),
{
    let artifact_sha256 = match sha256_file(content) {
        Ok(digest) => digest,
        Err(words) => {
            return Err(words);
        },
    };
    let all = match check_chain(events) {
        Ok(all) => all,
        Err(words) => {
            return Err(words);
        },
    };
    let size = all.len();
    proof {
        assert(all.deep_view().len() == all@.len());
    }
    let (sequence, previous): (u64, String) = if size == 0 {
        (
            1,
            "0000000000000000000000000000000000000000000000000000000000000000".to_string(),
        )
    } else {
        let last = &all[size - 1];
        proof {
            assert(all.deep_view().last() == last.deep_view());
        }
        let next: u64 = if last.sequence == u64::MAX {
            u64::MAX
        } else {
            last.sequence + 1
        };
        (next, last.event_sha256.clone())
    };
    let mut event = EvidenceAuditEvent {
        schema_version: "opsctl.evidence_audit_chain.v1".to_string(),
        sequence,
        ts: ts.to_string(),
        kind: kind.to_string(),
        actor: actor.to_string(),
        subject: subject.to_string(),
        artifact_path: artifact.to_string(),
        artifact_sha256,
        previous_event_sha256: previous,
        event_sha256: String::new(),
    };
    proof {
        assert(event.deep_view().event_sha256 =~= Seq::<char>::empty());
    }
    let seal = audit_event_hash(&event);
    event.event_sha256 = seal;
    Ok(event)
}

/// Whether an event is about an artifact.
pub open spec fn about(artifact: Seq<char>) -> spec_fn(EvidenceAuditEventView) -> bool {
    |e: EvidenceAuditEventView| e.artifact_path == artifact
}

/// Why nothing more is written to an artifact.
pub open spec fn append_refused(
    events: Result<Seq<EvidenceAuditEventView>, Seq<char>>,
    artifact: Seq<char>,
    content: Result<Seq<u8>, Seq<char>>,
) -> Option<Seq<char>> {
    match checked_chain(events) {
        Ok(all) => match last_where(all, about(artifact)) {
            Some(expected) => match content {
                Ok(bytes) => if sha256_hex(bytes) != expected.artifact_sha256 {
                    Some("refusing to append because audited artifact changed: "@ + artifact)
                } else {
                    None
                },
                Err(words) => Some(words),
            },
            None => None,
        },
        Err(words) => Some(words),
    }
}

/// Refuses to write to an artifact that is not as the chain last saw it. The
/// content matters only if the chain has seen the artifact.
pub fn verify_artifact_before_append(
    events: &Result<Vec<EvidenceAuditEvent>, String>,
    artifact: &str,
    content: &Result<Vec<u8>, String>,
) -> (r: Result<(), String>)
    ensures
        match append_refused(seen(*events), artifact@, bytes_seen(*content)) {
            Some(words) => r is Err && r->Err_0@ == words,
            None => r is Ok,
        },
{
    let all = match check_chain(events) {
        Ok(all) => all,
        Err(words) => {
            return Err(words);
        },
    };
    let expected = find_last(
        all,
        |e: &EvidenceAuditEvent| -> (b: bool)
            ensures
                b == (e.deep_view().artifact_path == artifact@)
            { same(&e.artifact_path, artifact) },
        Ghost(about(artifact@)),
    );
    match expected {
        Some(event) => match sha256_file(content) {
            Ok(actual) => if !same(&actual, &event.artifact_sha256) {
                Err(cat2("refusing to append because audited artifact changed: ", artifact))
            } else {
                Ok(())
            },
            Err(words) => Err(words),
        },
        None => Ok(()),
    }
}

/// Refuses to write the trust store if it is not as the chain last saw it, or if the
/// chain is broken.
pub fn evidence_crypto_preflight(
    events: &Result<Vec<EvidenceAuditEvent>, String>,
    path: &str,
    present: bool,
    content: &Result<Vec<u8>, String>,
) -> (r: Result<(), String>)
    ensures
        match (if present {
            append_refused(seen(*events), path@, bytes_seen(*content))
        } else {
            match checked_chain(seen(*events)) {
                Ok(_) => None,
                Err(words) => Some(words),
            }
        }) {
            Some(words) => r is Err && r->Err_0@ == words,
            None => r is Ok,
        },
{
    if present {
        verify_artifact_before_append(events, path, content)
    } else {
        match check_chain(events) {
            Ok(_) => Ok(()),
            Err(words) => Err(words),
        }
    }
}

// ---------------------------------------------------------------------------
// Checking the chain and the artifacts
// ---------------------------------------------------------------------------

/// The artifacts that a chain has seen, by path, each with its last digest.
pub open spec fn latest_digests(events: Seq<EvidenceAuditEventView>) -> Seq<
    (Seq<char>, Seq<char>),
>
    decreases events.len(),
{
    if events.len() == 0 {
        Seq::empty()
    } else {
        with_pair(
            latest_digests(events.drop_last()),
            events.last().artifact_path,
            events.last().artifact_sha256,
        )
    }
}

/// The artifacts that a chain has seen, by path, each with its last digest.
pub fn latest_artifacts(events: &Vec<EvidenceAuditEvent>) -> (r: Vec<(String, String)>)
    ensures
        r.deep_view() == latest_digests(events.deep_view()),
{
    let ghost all = events.deep_view();
    let mut out: Vec<(String, String)> = Vec::new();
    let mut i: usize = 0;
    proof {
        ends(all);
        assert(out.deep_view() =~= Seq::<(Seq<char>, Seq<char>)>::empty());
    }
    while i < events.len()
        invariant
            i <= events@.len(),
            all == events.deep_view(),
            out.deep_view() == latest_digests(all.take(i as int)),
        decreases events@.len() - i,
    {
        proof {
            step(all, i as int);
            assert(all[i as int] == events@[i as int].deep_view());
        }
        set_value(&mut out, events[i].artifact_path.clone(), events[i].artifact_sha256.clone());
        i = i + 1;
    }
    proof {
        ends(all);
    }
    out
}

/// What was read from files.
pub open spec fn contents_seen(contents: Seq<Result<Vec<u8>, String>>) -> Seq<
    Result<Seq<u8>, Seq<char>>,
> {
    contents.map_values(|c: Result<Vec<u8>, String>| bytes_seen(c))
}

/// What is wrong with an artifact.
pub open spec fn artifact_note(
    path: Seq<char>,
    digest: Seq<char>,
    content: Result<Seq<u8>, Seq<char>>,
) -> Seq<Seq<char>> {
    match content {
        Ok(bytes) => if sha256_hex(bytes) == digest {
            Seq::empty()
        } else {
            seq!["audited artifact changed: "@ + path]
        },
        Err(words) => seq!["audited artifact unavailable: "@ + path + ": "@ + words],
    }
}

/// What is wrong with the first `n` artifacts.
pub open spec fn artifact_notes(
    latest: Seq<(Seq<char>, Seq<char>)>,
    contents: Seq<Result<Seq<u8>, Seq<char>>>,
    n: int,
) -> Seq<Seq<char>>
    decreases n,
{
    if n <= 0 {
        Seq::empty()
    } else {
        artifact_notes(latest, contents, n - 1) + artifact_note(
            latest[n - 1].0,
            latest[n - 1].1,
            contents[n - 1],
        )
    }
}

/// The events that were read, or none.
pub open spec fn events_or_none(
    events: Result<Seq<EvidenceAuditEventView>, Seq<char>>,
) -> Seq<EvidenceAuditEventView> {
    match events {
        Ok(all) => all,
        Err(_) => Seq::empty(),
    }
}

/// Whether a chain and the artifacts that it has seen are as they should be.
pub open spec fn audit_report(
    state_dir: Seq<char>,
    events: Result<Seq<EvidenceAuditEventView>, Seq<char>>,
    contents: Seq<Result<Seq<u8>, Seq<char>>>,
) -> EvidenceAuditVerifyReportView {
    let all = events_or_none(events);
    let latest = latest_digests(all);
    let wrong = artifact_notes(latest, contents, latest.len() as int);
    let ok = chain_is_valid(all) && wrong.len() == 0 && all.len() > 0;
    EvidenceAuditVerifyReportView {
        ok,
        read_only: true,
        status: if ok {
            "valid"@
        } else {
            "blocked"@
        },
        journal_path: audit_path(state_dir),
        events: all.len(),
        chain_valid: chain_is_valid(all),
        current_artifacts_valid: wrong.len() == 0,
        latest_artifacts_checked: latest.len(),
        limitations: failure(events) + (match chain_break(all) {
            Some(i) => seq![
                "audit chain event "@ + decimal((i + 1) as nat) + " is invalid"@,
            ],
            None => Seq::empty(),
        }) + wrong + noted(all.len() == 0, "audit chain has no events"@),
    }
}

/// Whether a chain and the artifacts that it has seen are as they should be. The
/// contents are those of [`latest_artifacts`], in that order.
pub fn verify_audit_chain(
    state_dir: &str,
    events: &Result<Vec<EvidenceAuditEvent>, String>,
    contents: &Vec<Result<Vec<u8>, String>>,
) -> (r: EvidenceAuditVerifyReport)
    requires
        contents@.len() == latest_digests(events_or_none(seen(*events))).len(),
    ensures
        r.deep_view() == audit_report(state_dir@, seen(*events), contents_seen(contents@)),
{
    let ghost given = seen(*events);
    let ghost contents_view = contents_seen(contents@);
    let mut limitations: Vec<String> = Vec::new();
    proof {
        assert(limitations.deep_view() =~= Seq::<Seq<char>>::empty());
    }
    let none: Vec<EvidenceAuditEvent> = Vec::new();
    proof {
        assert(none.deep_view() =~= Seq::<EvidenceAuditEventView>::empty());
    }
    let all = match events {
        Ok(all) => all,
        Err(words) => &none,
    };
    note_failure(&mut limitations, events);
    let ghost seen_all = all.deep_view();
    proof {
        assert(seen_all == events_or_none(given));
        assert(seen_all.len() == all@.len());
        assert(limitations.deep_view() =~= failure(given));
    }
    let broken = find_chain_break(all);
    match broken {
        Some(i) => {
            put(
                &mut limitations,
                &cat3("audit chain event ", &sum_text(i, 1), " is invalid"),
            );
        },
        None => {},
    }
    let ghost head = failure(given) + (match chain_break(seen_all) {
        Some(i) => seq!["audit chain event "@ + decimal((i + 1) as nat) + " is invalid"@],
        None => Seq::<Seq<char>>::empty(),
    });
    proof {
        assert(limitations.deep_view() =~= head);
    }
    let latest = latest_artifacts(all);
    let ghost known = latest.deep_view();
    proof {
        assert(known.len() == latest@.len());
    }
    let mut current = true;
    let mut i: usize = 0;
    proof {
        assert(head + artifact_notes(known, contents_view, 0) =~= head);
    }
    while i < latest.len()
        invariant
            i <= latest@.len(),
            latest@.len() == contents@.len(),
            known == latest.deep_view(),
            known.len() == latest@.len(),
            contents_view == contents_seen(contents@),
            limitations.deep_view() == head + artifact_notes(known, contents_view, i as int),
            current == (artifact_notes(known, contents_view, i as int).len() == 0),
        decreases latest@.len() - i,
    {
        let ghost before = limitations.deep_view();
        let ghost path = latest@[i as int].0@;
        let ghost digest = latest@[i as int].1@;
        let ghost note = artifact_note(path, digest, contents_view[i as int]);
        proof {
            assert(known[i as int] == (path, digest));
            assert(contents_view[i as int] == bytes_seen(contents@[i as int]));
            assert(artifact_notes(known, contents_view, i + 1) == artifact_notes(
                known,
                contents_view,
                i as int,
            ) + note);
        }
        match sha256_file(&contents[i]) {
            Ok(hash) => if !same(&hash, &latest[i].1) {
                current = false;
                put(&mut limitations, &cat2("audited artifact changed: ", &latest[i].0));
            },
            Err(words) => {
                current = false;
                put(
                    &mut limitations,
                    &cat4("audited artifact unavailable: ", &latest[i].0, ": ", &words),
                );
            },
        }
        proof {
            assert(limitations.deep_view() =~= before + note);
            assert(before + note =~= head + artifact_notes(known, contents_view, i + 1));
        }
        i = i + 1;
    }
    note(&mut limitations, all.len() == 0, "audit chain has no events");
    let ok = broken.is_none() && current && all.len() > 0;
    proof {
        assert((broken is None) == chain_is_valid(seen_all));
    }
    EvidenceAuditVerifyReport {
        ok,
        read_only: true,
        status: if ok {
            "valid".to_string()
        } else {
            "blocked".to_string()
        },
        journal_path: audit_journal_path(state_dir),
        events: all.len(),
        chain_valid: broken.is_none(),
        current_artifacts_valid: current,
        latest_artifacts_checked: latest.len(),
        limitations,
    }
}

// ---------------------------------------------------------------------------
// Laws
// ---------------------------------------------------------------------------

/// Appending keeps a chain valid.
pub proof fn law_appending_keeps_a_chain_valid(
    events: Seq<EvidenceAuditEventView>,
    kind: Seq<char>,
    actor: Seq<char>,
    subject: Seq<char>,
    artifact: Seq<char>,
    artifact_sha256: Seq<char>,
    ts: Seq<char>,
)
    requires
        chain_is_valid(events),
        events.len() < u64::MAX,
    ensures
        chain_is_valid(
            events.push(next_event(events, kind, actor, subject, artifact, artifact_sha256, ts)),
        ),
{
    let e = next_event(events, kind, actor, subject, artifact, artifact_sha256, ts);
    let more = events.push(e);
    if events.len() > 0 {
        assert(event_is_valid(events, events.len() - 1));
    }
    assert(unsealed(e) =~= EvidenceAuditEventView { event_sha256: Seq::empty(), ..e });
    assert(event_digest(e) == e.event_sha256);
    assert forall|i: int| 0 <= i < more.len() implies #[trigger] event_is_valid(more, i) by {
        if i < events.len() {
            assert(event_is_valid(events, i));
        }
    }
}

/// An event that others follow cannot be replaced unseen: if the chain is still
/// valid, the new event has the digest of the one that it replaces.
pub proof fn law_replaced_events_break_the_chain(
    events: Seq<EvidenceAuditEventView>,
    i: int,
    e: EvidenceAuditEventView,
)
    requires
        0 <= i < events.len() - 1,
        chain_is_valid(events),
        chain_is_valid(events.update(i, e)),
    ensures
        event_digest(e) == event_digest(events[i]),
        e.sequence == events[i].sequence,
        e.previous_event_sha256 == events[i].previous_event_sha256,
{
    let other = events.update(i, e);
    assert(event_is_valid(events, i));
    assert(event_is_valid(events, i + 1));
    assert(event_is_valid(other, i));
    assert(event_is_valid(other, i + 1));
}

/// An event that was changed without a new seal breaks the chain, unless the
/// digests collide.
pub proof fn law_changed_events_break_the_chain(
    events: Seq<EvidenceAuditEventView>,
    i: int,
    e: EvidenceAuditEventView,
)
    requires
        0 <= i < events.len(),
        chain_is_valid(events),
        e.event_sha256 == events[i].event_sha256,
        event_digest(e) != event_digest(events[i]),
    ensures
        !chain_is_valid(events.update(i, e)),
{
    assert(event_is_valid(events, i));
    assert(!event_is_valid(events.update(i, e), i));
}

/// No event can be taken out of the middle of a chain.
pub proof fn law_removed_events_break_the_chain(events: Seq<EvidenceAuditEventView>, i: int)
    requires
        0 <= i < events.len() - 1,
        chain_is_valid(events),
    ensures
        !chain_is_valid(events.remove(i)),
{
    assert(event_is_valid(events, i + 1));
    assert(events.remove(i)[i] == events[i + 1]);
    assert(!event_is_valid(events.remove(i), i));
}

/// After an event was appended for an artifact, the artifact can be written to as
/// long as it is unchanged, and is refused once its digest has changed.
pub proof fn law_audited_artifacts_are_guarded(
    events: Seq<EvidenceAuditEventView>,
    kind: Seq<char>,
    actor: Seq<char>,
    subject: Seq<char>,
    artifact: Seq<char>,
    content: Seq<u8>,
    ts: Seq<char>,
    later: Seq<u8>,
)
    requires
        chain_is_valid(events),
        events.len() < u64::MAX,
    ensures
        append_refused(
            Ok(events.push(next_event(events, kind, actor, subject, artifact, sha256_hex(content), ts))),
            artifact,
            Ok(later),
        ) == (if sha256_hex(later) == sha256_hex(content) {
            None
        } else {
            Some("refusing to append because audited artifact changed: "@ + artifact)
        }),
{
    let e = next_event(events, kind, actor, subject, artifact, sha256_hex(content), ts);
    law_appending_keeps_a_chain_valid(
        events,
        kind,
        actor,
        subject,
        artifact,
        sha256_hex(content),
        ts,
    );
    let more = events.push(e);
    assert(more.last() == e);
    assert(last_where(more, about(artifact)) == Some(e));
}

/// A chain is valid exactly where each event counts one more than the one before, names
/// the digest of the one before, 64 zeros for the first, and carries the digest of its own
/// text.
pub proof fn law_valid_chains(events: Seq<EvidenceAuditEventView>)
    ensures
        chain_is_valid(events) <==> forall|i: int|
            0 <= i < events.len() ==> (#[trigger] events[i]).sequence == i + 1
                && events[i].event_sha256 == sha256_hex(
                vstd::utf8::encode_utf8(
                    event_text(
                        EvidenceAuditEventView { event_sha256: Seq::empty(), ..events[i] },
                    ),
                ),
            ) && events[i].previous_event_sha256 == (if i == 0 {
                "0000000000000000000000000000000000000000000000000000000000000000"@
            } else {
                events[i - 1].event_sha256
            }),
{
    if chain_is_valid(events) {
        assert forall|i: int| 0 <= i < events.len() implies (#[trigger] events[i]).sequence == i + 1
            && events[i].event_sha256 == sha256_hex(
            vstd::utf8::encode_utf8(
                event_text(EvidenceAuditEventView { event_sha256: Seq::empty(), ..events[i] }),
            ),
        ) && events[i].previous_event_sha256 == (if i == 0 {
            "0000000000000000000000000000000000000000000000000000000000000000"@
        } else {
            events[i - 1].event_sha256
        }) by {
            assert(event_is_valid(events, i));
        }
    }
    if forall|i: int|
        0 <= i < events.len() ==> (#[trigger] events[i]).sequence == i + 1
            && events[i].event_sha256 == sha256_hex(
            vstd::utf8::encode_utf8(
                event_text(EvidenceAuditEventView { event_sha256: Seq::empty(), ..events[i] }),
            ),
        ) && events[i].previous_event_sha256 == (if i == 0 {
            "0000000000000000000000000000000000000000000000000000000000000000"@
        } else {
            events[i - 1].event_sha256
        }) {
        assert forall|i: int| 0 <= i < events.len() implies #[trigger] event_is_valid(
            events,
            i,
        ) by {
            assert(events[i].sequence == i + 1);
        }
    }
}

/// An event is appended exactly where the artifact and the events could be read and the
/// chain is valid; it tells what it was asked to, of this artifact.
pub proof fn law_when_events_are_appended(
    events: Result<Seq<EvidenceAuditEventView>, Seq<char>>,
    kind: Seq<char>,
    actor: Seq<char>,
    subject: Seq<char>,
    artifact: Seq<char>,
    content: Result<Seq<u8>, Seq<char>>,
    ts: Seq<char>,
)
    ensures
        ({
            let r = appended_event(events, kind, actor, subject, artifact, content, ts);
            &&& r is Ok <==> content is Ok && events is Ok && chain_is_valid(events->Ok_0)
            &&& r matches Ok(e) ==> e.kind == kind && e.actor == actor && e.subject == subject
                && e.artifact_path == artifact && e.artifact_sha256 == sha256_hex(content->Ok_0)
                && e.ts == ts && e.schema_version == "opsctl.evidence_audit_chain.v1"@
        }),
{
}

/// Nothing more is appended about an artifact exactly where the events cannot be read, the
/// chain is broken, or the last event about it does not have its digest.
pub proof fn law_when_appending_is_refused(
    events: Result<Seq<EvidenceAuditEventView>, Seq<char>>,
    artifact: Seq<char>,
    content: Result<Seq<u8>, Seq<char>>,
)
    ensures
        append_refused(events, artifact, content) is None <==> events is Ok && chain_is_valid(
            events->Ok_0,
        ) && forall|i: int|
            0 <= i < events->Ok_0.len() && (#[trigger] events->Ok_0[i]).artifact_path == artifact
                && (forall|j: int|
                i < j < events->Ok_0.len() ==> (#[trigger] events->Ok_0[j]).artifact_path
                    != artifact) ==> content is Ok && sha256_hex(content->Ok_0)
                == events->Ok_0[i].artifact_sha256,
{
    if events is Ok {
        let all = events->Ok_0;
        let p = about(artifact);
        law_last_where(all, p);
        if last_where(all, p) is Some {
            let k = choose|i: int|
                0 <= i < all.len() && #[trigger] all[i] == last_where(all, p)->0 && p(all[i])
                    && forall|j: int| i < j < all.len() ==> !p(#[trigger] all[j]);
            assert(all[k].artifact_path == artifact);
            assert forall|j: int| k < j < all.len() implies (#[trigger] all[j]).artifact_path
                != artifact by {
                assert(!p(all[j]));
            }
            assert forall|i: int|
                0 <= i < all.len() && (#[trigger] all[i]).artifact_path == artifact && (forall|
                    j: int,
                |
                    i < j < all.len() ==> (#[trigger] all[j]).artifact_path != artifact) implies i
                == k by {
                if i < k {
                    assert(all[k].artifact_path != artifact);
                } else if k < i {
                    assert(all[i].artifact_path != artifact);
                }
            }
        } else {
            assert forall|i: int| 0 <= i < all.len() implies (#[trigger] all[i]).artifact_path
                != artifact by {
                assert(!p(all[i]));
            }
        }
    }
}

/// The latest digest of an artifact is that of the last event about it.
pub proof fn law_latest_digests(events: Seq<EvidenceAuditEventView>, artifact: Seq<char>)
    ensures
        keys_increase(latest_digests(events)),
        value_at(latest_digests(events), artifact) is None <==> forall|i: int|
            0 <= i < events.len() ==> (#[trigger] events[i]).artifact_path != artifact,
        forall|i: int|
            0 <= i < events.len() && (#[trigger] events[i]).artifact_path == artifact && (forall|
                j: int,
            |
                i < j < events.len() ==> (#[trigger] events[j]).artifact_path != artifact)
                ==> value_at(latest_digests(events), artifact) == Some(events[i].artifact_sha256),
    decreases events.len(),
{
    if events.len() > 0 {
        let d = events.drop_last();
        let last = events.last();
        law_latest_digests(d, artifact);
        law_values_read_back(
            latest_digests(d),
            last.artifact_path,
            last.artifact_sha256,
            artifact,
        );
        assert(events[events.len() - 1] == last);
        assert forall|i: int| 0 <= i < d.len() implies #[trigger] d[i] == events[i] by {}
        assert forall|i: int|
            0 <= i < events.len() && (#[trigger] events[i]).artifact_path == artifact && (forall|
                j: int,
            |
                i < j < events.len() ==> (#[trigger] events[j]).artifact_path != artifact)
            implies value_at(latest_digests(events), artifact) == Some(
            events[i].artifact_sha256,
        ) by {
            if i < d.len() {
                assert(events[events.len() - 1].artifact_path != artifact);
                assert(d[i].artifact_path == artifact);
                assert forall|j: int| i < j < d.len() implies (#[trigger] d[j]).artifact_path
                    != artifact by {
                    assert(events[j].artifact_path != artifact);
                }
            }
        }
        if value_at(latest_digests(events), artifact) is None {
            assert forall|i: int| 0 <= i < events.len() implies (#[trigger] events[i]).artifact_path
                != artifact by {
                if i < d.len() {
                    assert(d[i].artifact_path != artifact);
                }
            }
        }
        if forall|i: int|
            0 <= i < events.len() ==> (#[trigger] events[i]).artifact_path != artifact {
            assert forall|i: int| 0 <= i < d.len() implies (#[trigger] d[i]).artifact_path
                != artifact by {
                assert(events[i].artifact_path != artifact);
            }
        }
    } else {
        assert(latest_digests(events) =~= Seq::empty());
    }
}

proof fn lemma_no_notes(
    latest: Seq<(Seq<char>, Seq<char>)>,
    contents: Seq<Result<Seq<u8>, Seq<char>>>,
    n: int,
)
    ensures
        artifact_notes(latest, contents, n).len() == 0 <==> forall|i: int|
            0 <= i < n ==> (#[trigger] contents[i]) is Ok && sha256_hex(contents[i]->Ok_0)
                == latest[i].1,
    decreases n,
{
    if n > 0 {
        lemma_no_notes(latest, contents, n - 1);
        let note = artifact_note(latest[n - 1].0, latest[n - 1].1, contents[n - 1]);
        assert(note.len() == 0 <==> contents[n - 1] is Ok && sha256_hex(contents[n - 1]->Ok_0)
            == latest[n - 1].1);
    }
}

/// An audit is fine exactly where there are events, the chain is valid, and each artifact
/// that it speaks of can be read and has its latest digest.
pub proof fn law_when_an_audit_is_fine(
    state_dir: Seq<char>,
    events: Result<Seq<EvidenceAuditEventView>, Seq<char>>,
    contents: Seq<Result<Seq<u8>, Seq<char>>>,
)
    ensures
        ({
            let r = audit_report(state_dir, events, contents);
            let latest = latest_digests(events->Ok_0);
            let held = forall|i: int|
                0 <= i < latest.len() ==> (#[trigger] contents[i]) is Ok && sha256_hex(
                    contents[i]->Ok_0,
                ) == latest[i].1;
            &&& r.ok <==> events is Ok && events->Ok_0.len() > 0 && chain_is_valid(events->Ok_0)
                && held
            &&& r.status == "valid"@ <==> r.ok
            &&& r.status == "blocked"@ <==> !r.ok
            &&& events is Ok ==> r.events == events->Ok_0.len() && (r.chain_valid <==> chain_is_valid(
                events->Ok_0,
            )) && (r.current_artifacts_valid <==> held)
            &&& r.ok <==> r.limitations.len() == 0
        }),
{
    let all = events_or_none(events);
    let latest = latest_digests(all);
    lemma_no_notes(latest, contents, latest.len() as int);
    reveal_strlit("valid");
    reveal_strlit("blocked");
    assert("valid"@[0] == 'v' && "blocked"@[0] == 'b');
}

/// The text of an event, whose digest seals it, tells each of its fields.
pub proof fn law_what_the_text_of_an_event_tells(e: EvidenceAuditEventView)
    ensures
        event_text(e) == "{"@ + joined(
            seq![
                "\"schema_version\":"@ + json_quoted(e.schema_version),
                "\"sequence\":"@ + decimal(e.sequence as nat),
                "\"ts\":"@ + json_quoted(e.ts),
                "\"kind\":"@ + json_quoted(e.kind),
                "\"actor\":"@ + json_quoted(e.actor),
                "\"subject\":"@ + json_quoted(e.subject),
                "\"artifact_path\":"@ + json_quoted(e.artifact_path),
                "\"artifact_sha256\":"@ + json_quoted(e.artifact_sha256),
                "\"previous_event_sha256\":"@ + json_quoted(e.previous_event_sha256),
                "\"event_sha256\":"@ + json_quoted(e.event_sha256),
            ],
            ","@,
        ) + "}"@,
{
    reveal(event_members);
    reveal_strlit("schema_version");
    reveal_strlit("\"schema_version\":");
    reveal_strlit("sequence");
    reveal_strlit("\"sequence\":");
    reveal_strlit("ts");
    reveal_strlit("\"ts\":");
    reveal_strlit("kind");
    reveal_strlit("\"kind\":");
    reveal_strlit("actor");
    reveal_strlit("\"actor\":");
    reveal_strlit("subject");
    reveal_strlit("\"subject\":");
    reveal_strlit("artifact_path");
    reveal_strlit("\"artifact_path\":");
    reveal_strlit("artifact_sha256");
    reveal_strlit("\"artifact_sha256\":");
    reveal_strlit("previous_event_sha256");
    reveal_strlit("\"previous_event_sha256\":");
    reveal_strlit("event_sha256");
    reveal_strlit("\"event_sha256\":");
    reveal_strlit("\"");
    reveal_strlit("\":");
    assert("\""@ + "schema_version"@ + "\":"@ =~= "\"schema_version\":"@);
    assert("\""@ + "sequence"@ + "\":"@ =~= "\"sequence\":"@);
    assert("\""@ + "ts"@ + "\":"@ =~= "\"ts\":"@);
    assert("\""@ + "kind"@ + "\":"@ =~= "\"kind\":"@);
    assert("\""@ + "actor"@ + "\":"@ =~= "\"actor\":"@);
    assert("\""@ + "subject"@ + "\":"@ =~= "\"subject\":"@);
    assert("\""@ + "artifact_path"@ + "\":"@ =~= "\"artifact_path\":"@);
    assert("\""@ + "artifact_sha256"@ + "\":"@ =~= "\"artifact_sha256\":"@);
    assert("\""@ + "previous_event_sha256"@ + "\":"@ =~= "\"previous_event_sha256\":"@);
    assert("\""@ + "event_sha256"@ + "\":"@ =~= "\"event_sha256\":"@);
    assert(event_members(e) =~= seq![
        "\"schema_version\":"@ + json_quoted(e.schema_version),
        "\"sequence\":"@ + decimal(e.sequence as nat),
        "\"ts\":"@ + json_quoted(e.ts),
        "\"kind\":"@ + json_quoted(e.kind),
        "\"actor\":"@ + json_quoted(e.actor),
        "\"subject\":"@ + json_quoted(e.subject),
        "\"artifact_path\":"@ + json_quoted(e.artifact_path),
        "\"artifact_sha256\":"@ + json_quoted(e.artifact_sha256),
        "\"previous_event_sha256\":"@ + json_quoted(e.previous_event_sha256),
        "\"event_sha256\":"@ + json_quoted(e.event_sha256),
    ]);
}

} // verus!
