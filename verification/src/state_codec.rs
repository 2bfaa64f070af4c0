//! The state document codec.
//!
//! A `RunPodState` persists as one JSON document with a fixed field order:
//! format version, pod name, optional pod id, target status, optional
//! remote snapshot, update timestamp, and the policy object.  Enum values
//! serialize as upper-snake-case tokens.  `encode_state` and
//! `decode_state` implement the specification-level grammar exactly, and
//! `lemma_state_round_trip` proves that decoding an encoded state yields
//! the state back, field for field.
//!
//! The grammar is the format's definition and it is strict: the fields
//! stand in the canonical order with no whitespace between tokens, the
//! optional fields (pod id, snapshot, auto-terminate threshold) may be
//! omitted and then default to absent, and anything else — an unknown
//! field, a reordered field, stray whitespace — is rejected as malformed
//! rather than guessed at.  The store only ever writes this canonical
//! form, so everything it writes it reads back.

use crate::json_text::{
    append_json_string, append_u64, dec_digits, expect_lit_at, is_digit, lemma_dec_digits_head,
    lemma_expect_fail_at, lemma_expect_prefix, lemma_parse_bool_of_encode, lemma_parse_string_of_encode,
    lemma_parse_u64_of_dec, parse_bool_at, parse_string_at, parse_u64_at, spec_encode_bool,
    spec_encode_string, spec_expect, spec_parse_bool, spec_parse_string, spec_parse_u64,
};
use crate::runpod_state::{
    PodDesiredStatus, PodId, RemotePodSnapshot, RunPodState, SnapView, StatePolicy, StateView,
    TargetStatus, STATE_FORMAT_VERSION,
};
use vstd::prelude::*;
use vstd::string::*;

verus! {

/// Why a state document was rejected.
#[derive(Debug, Clone, Copy, PartialEq, Eq, Structural)]
pub enum StateDocError {
    /// The text is not a well-formed state document.
    Malformed,
    /// The document's format version is not this engine's.
    WrongVersion,
    /// The logical pod name is blank: empty, or nothing but whitespace.
    EmptyName,
}

/// Whether `c` has the Unicode `White_Space` property — the characters
/// that trimming a name removes.
pub open spec fn is_space(c: char) -> bool {
    ||| (9 <= (c as u32) && (c as u32) <= 13)
    ||| (c as u32) == 32
    ||| (c as u32) == 0x85
    ||| (c as u32) == 0xA0
    ||| (c as u32) == 0x1680
    ||| (0x2000 <= (c as u32) && (c as u32) <= 0x200A)
    ||| (c as u32) == 0x2028
    ||| (c as u32) == 0x2029
    ||| (c as u32) == 0x202F
    ||| (c as u32) == 0x205F
    ||| (c as u32) == 0x3000
}

/// A blank name: no character survives trimming.
pub open spec fn is_blank(s: Seq<char>) -> bool {
    forall|i: int| 0 <= i < s.len() ==> is_space(#[trigger] s[i])
}

/// Whether `c` has the Unicode `White_Space` property.
fn char_is_space(c: char) -> (r: bool)
    ensures
        r == is_space(c),
{
    let u = c as u32;
    (9 <= u && u <= 13) || u == 32 || u == 0x85 || u == 0xA0 || u == 0x1680 || (0x2000 <= u && u
        <= 0x200A) || u == 0x2028 || u == 0x2029 || u == 0x202F || u == 0x205F || u == 0x3000
}

/// Whether the string is blank: empty, or nothing but whitespace.
pub fn str_is_blank(s: &str) -> (r: bool)
    ensures
        r == is_blank(s@),
{
    let n = s.unicode_len();
    let mut k: usize = 0;
    while k < n
        invariant
            k <= n,
            n == s@.len(),
            forall|m: int| 0 <= m < k ==> is_space(#[trigger] s@[m]),
        decreases n - k,
    {
        let c = s.get_char(k);
        if !char_is_space(c) {
            return false;
        }
        k += 1;
    }
    true
}

/// A state fit to persist: current format version and a non-blank name.
pub open spec fn wf_state(v: StateView) -> bool {
    v.format_version == STATE_FORMAT_VERSION && !is_blank(v.pod_name)
}

// ---------------------------------------------------------------------------
// Specification-level grammar
// ---------------------------------------------------------------------------

/// The serialized token of a remote lifecycle status.
pub open spec fn status_token(st: PodDesiredStatus) -> Seq<char> {
    match st {
        PodDesiredStatus::Running => "\"RUNNING\""@,
        PodDesiredStatus::Exited => "\"EXITED\""@,
        PodDesiredStatus::Terminated => "\"TERMINATED\""@,
    }
}

/// The serialized token of a target status.
pub open spec fn target_token(t: TargetStatus) -> Seq<char> {
    match t {
        TargetStatus::Running => "\"RUNNING\""@,
        TargetStatus::Exited => "\"EXITED\""@,
        TargetStatus::Terminated => "\"TERMINATED\""@,
    }
}

/// An optional string: `null` or a JSON string.
pub open spec fn spec_encode_opt_string(v: Option<Seq<char>>) -> Seq<char> {
    match v {
        Some(s) => spec_encode_string(s),
        None => "null"@,
    }
}

/// An optional number: `null` or decimal digits.
pub open spec fn spec_encode_opt_u64(v: Option<u64>) -> Seq<char> {
    match v {
        Some(n) => dec_digits(n as nat),
        None => "null"@,
    }
}

/// The JSON object of a remote snapshot.
pub open spec fn spec_encode_snap(sv: SnapView) -> Seq<char> {
    "{\"id\":"@ + spec_encode_string(sv.id) + ",\"name\":"@ + spec_encode_string(sv.name)
        + ",\"desired_status\":"@ + status_token(sv.desired_status) + ",\"observed_at_ms\":"@
        + dec_digits(sv.observed_at_ms as nat) + "}"@
}

/// An optional snapshot: `null` or the snapshot object.
pub open spec fn spec_encode_opt_snap(v: Option<SnapView>) -> Seq<char> {
    match v {
        Some(sv) => spec_encode_snap(sv),
        None => "null"@,
    }
}

/// The JSON object of a policy.
pub open spec fn spec_encode_policy(p: StatePolicy) -> Seq<char> {
    "{\"reuse_exited_pod\":"@ + spec_encode_bool(p.reuse_exited_pod)
        + ",\"auto_terminate_after_exited_ms\":"@ + spec_encode_opt_u64(
        p.auto_terminate_after_exited_ms,
    ) + "}"@
}

/// The whole state document.
pub open spec fn spec_encode_state(v: StateView) -> Seq<char> {
    "{\"format_version\":"@ + dec_digits(v.format_version as nat) + ",\"pod_name\":"@
        + spec_encode_string(v.pod_name) + ",\"pod_id\":"@ + spec_encode_opt_string(v.pod_id)
        + ",\"target\":"@ + target_token(v.target) + ",\"last_remote\":"@ + spec_encode_opt_snap(
        v.last_remote,
    ) + ",\"last_updated_ms\":"@ + dec_digits(v.last_updated_ms as nat) + ",\"policy\":"@
        + spec_encode_policy(v.policy) + "}"@
}

/// Parse a status token.
pub open spec fn spec_parse_status(t: Seq<char>) -> Option<(PodDesiredStatus, Seq<char>)> {
    match spec_expect(t, "\"RUNNING\""@) {
        Some(rest) => Some((PodDesiredStatus::Running, rest)),
        None => match spec_expect(t, "\"EXITED\""@) {
            Some(rest) => Some((PodDesiredStatus::Exited, rest)),
            None => match spec_expect(t, "\"TERMINATED\""@) {
                Some(rest) => Some((PodDesiredStatus::Terminated, rest)),
                None => None,
            },
        },
    }
}

/// Parse a target token.
pub open spec fn spec_parse_target(t: Seq<char>) -> Option<(TargetStatus, Seq<char>)> {
    match spec_expect(t, "\"RUNNING\""@) {
        Some(rest) => Some((TargetStatus::Running, rest)),
        None => match spec_expect(t, "\"EXITED\""@) {
            Some(rest) => Some((TargetStatus::Exited, rest)),
            None => match spec_expect(t, "\"TERMINATED\""@) {
                Some(rest) => Some((TargetStatus::Terminated, rest)),
                None => None,
            },
        },
    }
}

/// Parse `null` or a JSON string.
pub open spec fn spec_parse_opt_string(t: Seq<char>) -> Option<(Option<Seq<char>>, Seq<char>)> {
    match spec_expect(t, "null"@) {
        Some(rest) => Some((None, rest)),
        None => match spec_parse_string(t) {
            Some((s, rest)) => Some((Some(s), rest)),
            None => None,
        },
    }
}

/// Parse `null` or a decimal `u64`.
pub open spec fn spec_parse_opt_u64(t: Seq<char>) -> Option<(Option<u64>, Seq<char>)> {
    match spec_expect(t, "null"@) {
        Some(rest) => Some((None, rest)),
        None => match spec_parse_u64(t) {
            Some((n, rest)) => Some((Some(n), rest)),
            None => None,
        },
    }
}

/// Parse one optional string field: the label followed by `null` or a
/// string, or nothing at all, which defaults to absent.
pub open spec fn spec_parse_field_opt_string(t: Seq<char>, label: Seq<char>) -> Option<
    (Option<Seq<char>>, Seq<char>),
> {
    match spec_expect(t, label) {
        Some(t1) => spec_parse_opt_string(t1),
        None => Some((None, t)),
    }
}

/// Parse one optional number field: the label followed by `null` or a
/// number, or nothing at all, which defaults to absent.
pub open spec fn spec_parse_field_opt_u64(t: Seq<char>, label: Seq<char>) -> Option<
    (Option<u64>, Seq<char>),
> {
    match spec_expect(t, label) {
        Some(t1) => spec_parse_opt_u64(t1),
        None => Some((None, t)),
    }
}

/// Parse one optional snapshot field: the label followed by `null` or a
/// snapshot object, or nothing at all, which defaults to absent.
pub open spec fn spec_parse_field_opt_snap(t: Seq<char>, label: Seq<char>) -> Option<
    (Option<SnapView>, Seq<char>),
> {
    match spec_expect(t, label) {
        Some(t1) => spec_parse_opt_snap(t1),
        None => Some((None, t)),
    }
}

/// Parse a snapshot object.
pub open spec fn spec_parse_snap(t: Seq<char>) -> Option<(SnapView, Seq<char>)> {
    match spec_expect(t, "{\"id\":"@) {
        None => None,
        Some(t1) => match spec_parse_string(t1) {
            None => None,
            Some((id, t2)) => match spec_expect(t2, ",\"name\":"@) {
                None => None,
                Some(t3) => match spec_parse_string(t3) {
                    None => None,
                    Some((name, t4)) => match spec_expect(t4, ",\"desired_status\":"@) {
                        None => None,
                        Some(t5) => match spec_parse_status(t5) {
                            None => None,
                            Some((st, t6)) => match spec_expect(t6, ",\"observed_at_ms\":"@) {
                                None => None,
                                Some(t7) => match spec_parse_u64(t7) {
                                    None => None,
                                    Some((ms, t8)) => match spec_expect(t8, "}"@) {
                                        None => None,
                                        Some(t9) => Some(
                                            (
                                                SnapView {
                                                    id: id,
                                                    name: name,
                                                    desired_status: st,
                                                    observed_at_ms: ms,
                                                },
                                                t9,
                                            ),
                                        ),
                                    },
                                },
                            },
                        },
                    },
                },
            },
        },
    }
}

/// Parse `null` or a snapshot object.
pub open spec fn spec_parse_opt_snap(t: Seq<char>) -> Option<(Option<SnapView>, Seq<char>)> {
    match spec_expect(t, "null"@) {
        Some(rest) => Some((None, rest)),
        None => match spec_parse_snap(t) {
            Some((sv, rest)) => Some((Some(sv), rest)),
            None => None,
        },
    }
}

/// Parse a policy object.
pub open spec fn spec_parse_policy(t: Seq<char>) -> Option<(StatePolicy, Seq<char>)> {
    match spec_expect(t, "{\"reuse_exited_pod\":"@) {
        None => None,
        Some(t1) => match spec_parse_bool(t1) {
            None => None,
            Some((reuse, t2)) => match spec_parse_field_opt_u64(
                t2,
                ",\"auto_terminate_after_exited_ms\":"@,
            ) {
                None => None,
                Some((auto_ms, t4)) => match spec_expect(t4, "}"@) {
                    None => None,
                    Some(t5) => Some(
                        (
                            StatePolicy {
                                reuse_exited_pod: reuse,
                                auto_terminate_after_exited_ms: auto_ms,
                            },
                            t5,
                        ),
                    ),
                },
            },
        },
    }
}

/// Parse a whole state document.
pub open spec fn spec_parse_state(t: Seq<char>) -> Option<(StateView, Seq<char>)> {
    match spec_expect(t, "{\"format_version\":"@) {
        None => None,
        Some(t1) => match spec_parse_u64(t1) {
            None => None,
            Some((fv, t2)) => if fv > u32::MAX as u64 {
                None
            } else {
                match spec_expect(t2, ",\"pod_name\":"@) {
                    None => None,
                    Some(t3) => match spec_parse_string(t3) {
                        None => None,
                        Some((name, t4)) => match spec_parse_field_opt_string(
                            t4,
                            ",\"pod_id\":"@,
                        ) {
                            None => None,
                            Some((pod_id, t6)) => match spec_expect(t6, ",\"target\":"@) {
                                None => None,
                                Some(t7) => match spec_parse_target(t7) {
                                    None => None,
                                    Some((target, t8)) => match spec_parse_field_opt_snap(
                                        t8,
                                        ",\"last_remote\":"@,
                                    ) {
                                        None => None,
                                        Some((last_remote, t10)) => match spec_expect(
                                            t10,
                                            ",\"last_updated_ms\":"@,
                                        ) {
                                            None => None,
                                            Some(t11) => match spec_parse_u64(t11) {
                                                None => None,
                                                Some((upd, t12)) => match spec_expect(
                                                    t12,
                                                    ",\"policy\":"@,
                                                ) {
                                                    None => None,
                                                    Some(t13) => match spec_parse_policy(t13) {
                                                        None => None,
                                                        Some((policy, t14)) => match spec_expect(
                                                            t14,
                                                            "}"@,
                                                        ) {
                                                            None => None,
                                                            Some(t15) => Some(
                                                                (
                                                                    StateView {
                                                                        format_version: fv as u32,
                                                                        pod_name: name,
                                                                        pod_id: pod_id,
                                                                        target: target,
                                                                        last_remote: last_remote,
                                                                        last_updated_ms: upd,
                                                                        policy: policy,
                                                                    },
                                                                    t15,
                                                                ),
                                                            ),
                                                        },
                                                    },
                                                },
                                            },
                                        },
                                    },
                                },
                            },
                        },
                    },
                }
            },
        },
    }
}

// ---------------------------------------------------------------------------
// Round-trip lemmas
// ---------------------------------------------------------------------------

/// A status token parses back to its status.
pub proof fn lemma_parse_status_of_token(st: PodDesiredStatus, rest: Seq<char>)
    ensures
        spec_parse_status(status_token(st) + rest) == Some((st, rest)),
{
    reveal_strlit("\"RUNNING\"");
    reveal_strlit("\"EXITED\"");
    reveal_strlit("\"TERMINATED\"");
    let t = status_token(st) + rest;
    match st {
        PodDesiredStatus::Running => {
            lemma_expect_prefix("\"RUNNING\""@, rest);
        },
        PodDesiredStatus::Exited => {
            assert(t[1] == 'E');
            lemma_expect_fail_at(t, "\"RUNNING\""@, 1);
            lemma_expect_prefix("\"EXITED\""@, rest);
        },
        PodDesiredStatus::Terminated => {
            assert(t[1] == 'T');
            lemma_expect_fail_at(t, "\"RUNNING\""@, 1);
            lemma_expect_fail_at(t, "\"EXITED\""@, 1);
            lemma_expect_prefix("\"TERMINATED\""@, rest);
        },
    }
}

/// A target token parses back to its target.
pub proof fn lemma_parse_target_of_token(tg: TargetStatus, rest: Seq<char>)
    ensures
        spec_parse_target(target_token(tg) + rest) == Some((tg, rest)),
{
    reveal_strlit("\"RUNNING\"");
    reveal_strlit("\"EXITED\"");
    reveal_strlit("\"TERMINATED\"");
    let t = target_token(tg) + rest;
    match tg {
        TargetStatus::Running => {
            lemma_expect_prefix("\"RUNNING\""@, rest);
        },
        TargetStatus::Exited => {
            assert(t[1] == 'E');
            lemma_expect_fail_at(t, "\"RUNNING\""@, 1);
            lemma_expect_prefix("\"EXITED\""@, rest);
        },
        TargetStatus::Terminated => {
            assert(t[1] == 'T');
            lemma_expect_fail_at(t, "\"RUNNING\""@, 1);
            lemma_expect_fail_at(t, "\"EXITED\""@, 1);
            lemma_expect_prefix("\"TERMINATED\""@, rest);
        },
    }
}

/// An optional string round-trips.
pub proof fn lemma_parse_opt_string_of_encode(v: Option<Seq<char>>, rest: Seq<char>)
    ensures
        spec_parse_opt_string(spec_encode_opt_string(v) + rest) == Some((v, rest)),
{
    reveal_strlit("null");
    match v {
        None => {
            lemma_expect_prefix("null"@, rest);
        },
        Some(s) => {
            let t = spec_encode_opt_string(v) + rest;
            assert(spec_encode_string(s)[0] == '"');
            assert(t[0] == '"');
            lemma_expect_fail_at(t, "null"@, 0);
            lemma_parse_string_of_encode(s, rest);
        },
    }
}

/// An optional number round-trips, provided the rest does not begin with
/// a digit.
pub proof fn lemma_parse_opt_u64_of_encode(v: Option<u64>, rest: Seq<char>)
    requires
        rest.len() > 0 ==> !is_digit(rest[0]),
    ensures
        spec_parse_opt_u64(spec_encode_opt_u64(v) + rest) == Some((v, rest)),
{
    reveal_strlit("null");
    match v {
        None => {
            lemma_expect_prefix("null"@, rest);
        },
        Some(n) => {
            let t = spec_encode_opt_u64(v) + rest;
            lemma_dec_digits_head(n as nat);
            assert(t[0] == dec_digits(n as nat)[0]);
            assert(is_digit(t[0]));
            lemma_expect_fail_at(t, "null"@, 0);
            lemma_parse_u64_of_dec(n, rest);
        },
    }
}

/// A snapshot object round-trips.
pub proof fn lemma_parse_snap_of_encode(sv: SnapView, rest: Seq<char>)
    ensures
        spec_parse_snap(spec_encode_snap(sv) + rest) == Some((sv, rest)),
{
    let p1 = "{\"id\":"@;
    let p2 = spec_encode_string(sv.id);
    let p3 = ",\"name\":"@;
    let p4 = spec_encode_string(sv.name);
    let p5 = ",\"desired_status\":"@;
    let p6 = status_token(sv.desired_status);
    let p7 = ",\"observed_at_ms\":"@;
    let p8 = dec_digits(sv.observed_at_ms as nat);
    let p9 = "}"@;
    let r9 = p9 + rest;
    let r8 = p8 + r9;
    let r7 = p7 + r8;
    let r6 = p6 + r7;
    let r5 = p5 + r6;
    let r4 = p4 + r5;
    let r3 = p3 + r4;
    let r2 = p2 + r3;
    assert(spec_encode_snap(sv) + rest =~= p1 + r2);
    lemma_expect_prefix(p1, r2);
    lemma_parse_string_of_encode(sv.id, r3);
    lemma_expect_prefix(p3, r4);
    lemma_parse_string_of_encode(sv.name, r5);
    lemma_expect_prefix(p5, r6);
    lemma_parse_status_of_token(sv.desired_status, r7);
    lemma_expect_prefix(p7, r8);
    reveal_strlit("}");
    assert(r9[0] == '}');
    assert(!is_digit('}'));
    lemma_parse_u64_of_dec(sv.observed_at_ms, r9);
    lemma_expect_prefix(p9, rest);
    assert(spec_parse_snap(spec_encode_snap(sv) + rest) == Some((sv, rest)));
}

/// An optional snapshot round-trips.
pub proof fn lemma_parse_opt_snap_of_encode(v: Option<SnapView>, rest: Seq<char>)
    ensures
        spec_parse_opt_snap(spec_encode_opt_snap(v) + rest) == Some((v, rest)),
{
    reveal_strlit("null");
    reveal_strlit("{\"id\":");
    match v {
        None => {
            lemma_expect_prefix("null"@, rest);
        },
        Some(sv) => {
            let t = spec_encode_opt_snap(v) + rest;
            assert(spec_encode_snap(sv)[0] == "{\"id\":"@[0]);
            assert(t[0] == '{');
            lemma_expect_fail_at(t, "null"@, 0);
            lemma_parse_snap_of_encode(sv, rest);
        },
    }
}

/// A policy object round-trips.
pub proof fn lemma_parse_policy_of_encode(p: StatePolicy, rest: Seq<char>)
    ensures
        spec_parse_policy(spec_encode_policy(p) + rest) == Some((p, rest)),
{
    let p1 = "{\"reuse_exited_pod\":"@;
    let p2 = spec_encode_bool(p.reuse_exited_pod);
    let p3 = ",\"auto_terminate_after_exited_ms\":"@;
    let p4 = spec_encode_opt_u64(p.auto_terminate_after_exited_ms);
    let p5 = "}"@;
    let r5 = p5 + rest;
    let r4 = p4 + r5;
    let r3 = p3 + r4;
    let r2 = p2 + r3;
    assert(spec_encode_policy(p) + rest =~= p1 + r2);
    lemma_expect_prefix(p1, r2);
    lemma_parse_bool_of_encode(p.reuse_exited_pod, r3);
    lemma_expect_prefix(p3, r4);
    reveal_strlit("}");
    assert(r5[0] == '}');
    assert(!is_digit('}'));
    lemma_parse_opt_u64_of_encode(p.auto_terminate_after_exited_ms, r5);
    assert(spec_parse_field_opt_u64(r3, p3) == Some((p.auto_terminate_after_exited_ms, r5)));
    lemma_expect_prefix(p5, rest);
    assert(spec_parse_policy(spec_encode_policy(p) + rest) == Some((p, rest)));
}

/// Concatenation of character sequences is associative.
proof fn seq_assoc(a: Seq<char>, b: Seq<char>, c: Seq<char>)
    ensures
        (a + b) + c =~= a + (b + c),
{
}

/// A whole state document round-trips.
#[verifier::rlimit(100)]
pub proof fn lemma_parse_state_of_encode(v: StateView, rest: Seq<char>)
    ensures
        spec_parse_state(spec_encode_state(v) + rest) == Some((v, rest)),
{
    let p1 = "{\"format_version\":"@;
    let p2 = dec_digits(v.format_version as nat);
    let p3 = ",\"pod_name\":"@;
    let p4 = spec_encode_string(v.pod_name);
    let p5 = ",\"pod_id\":"@;
    let p6 = spec_encode_opt_string(v.pod_id);
    let p7 = ",\"target\":"@;
    let p8 = target_token(v.target);
    let p9 = ",\"last_remote\":"@;
    let p10 = spec_encode_opt_snap(v.last_remote);
    let p11 = ",\"last_updated_ms\":"@;
    let p12 = dec_digits(v.last_updated_ms as nat);
    let p13 = ",\"policy\":"@;
    let p14 = spec_encode_policy(v.policy);
    let p15 = "}"@;
    let r15 = p15 + rest;
    let r14 = p14 + r15;
    let r13 = p13 + r14;
    let r12 = p12 + r13;
    let r11 = p11 + r12;
    let r10 = p10 + r11;
    let r9 = p9 + r10;
    let r8 = p8 + r9;
    let r7 = p7 + r8;
    let r6 = p6 + r7;
    let r5 = p5 + r6;
    let r4 = p4 + r5;
    let r3 = p3 + r4;
    let r2 = p2 + r3;
    let e2 = p1 + p2;
    let e3 = e2 + p3;
    let e4 = e3 + p4;
    let e5 = e4 + p5;
    let e6 = e5 + p6;
    let e7 = e6 + p7;
    let e8 = e7 + p8;
    let e9 = e8 + p9;
    let e10 = e9 + p10;
    let e11 = e10 + p11;
    let e12 = e11 + p12;
    let e13 = e12 + p13;
    let e14 = e13 + p14;
    let e15 = e14 + p15;
    let t = spec_encode_state(v) + rest;
    assert(spec_encode_state(v) == e15);
    seq_assoc(e14, p15, rest);
    assert(t == e14 + r15);
    seq_assoc(e13, p14, r15);
    assert(t == e13 + r14);
    seq_assoc(e12, p13, r14);
    assert(t == e12 + r13);
    seq_assoc(e11, p12, r13);
    assert(t == e11 + r12);
    seq_assoc(e10, p11, r12);
    assert(t == e10 + r11);
    seq_assoc(e9, p10, r11);
    assert(t == e9 + r10);
    seq_assoc(e8, p9, r10);
    assert(t == e8 + r9);
    seq_assoc(e7, p8, r9);
    assert(t == e7 + r8);
    seq_assoc(e6, p7, r8);
    assert(t == e6 + r7);
    seq_assoc(e5, p6, r7);
    assert(t == e5 + r6);
    seq_assoc(e4, p5, r6);
    assert(t == e4 + r5);
    seq_assoc(e3, p4, r5);
    assert(t == e3 + r4);
    seq_assoc(e2, p3, r4);
    assert(t == e2 + r3);
    seq_assoc(p1, p2, r3);
    assert(t == p1 + r2);
    lemma_expect_prefix(p1, r2);
    assert(spec_expect(t, p1) == Some(r2));
    reveal_strlit(",\"pod_name\":");
    assert(r3[0] == ',');
    assert(!is_digit(','));
    lemma_parse_u64_of_dec(v.format_version as u64, r3);
    assert(spec_parse_u64(r2) == Some((v.format_version as u64, r3)));
    assert(v.format_version as u64 <= u32::MAX as u64);
    lemma_expect_prefix(p3, r4);
    assert(spec_expect(r3, p3) == Some(r4));
    lemma_parse_string_of_encode(v.pod_name, r5);
    assert(spec_parse_string(r4) == Some((v.pod_name, r5)));
    lemma_expect_prefix(p5, r6);
    assert(spec_expect(r5, p5) == Some(r6));
    lemma_parse_opt_string_of_encode(v.pod_id, r7);
    assert(spec_parse_opt_string(r6) == Some((v.pod_id, r7)));
    assert(spec_parse_field_opt_string(r5, p5) == Some((v.pod_id, r7)));
    lemma_expect_prefix(p7, r8);
    assert(spec_expect(r7, p7) == Some(r8));
    lemma_parse_target_of_token(v.target, r9);
    assert(spec_parse_target(r8) == Some((v.target, r9)));
    lemma_expect_prefix(p9, r10);
    assert(spec_expect(r9, p9) == Some(r10));
    lemma_parse_opt_snap_of_encode(v.last_remote, r11);
    assert(spec_parse_opt_snap(r10) == Some((v.last_remote, r11)));
    assert(spec_parse_field_opt_snap(r9, p9) == Some((v.last_remote, r11)));
    lemma_expect_prefix(p11, r12);
    assert(spec_expect(r11, p11) == Some(r12));
    reveal_strlit(",\"policy\":");
    assert(r13[0] == ',');
    lemma_parse_u64_of_dec(v.last_updated_ms, r13);
    assert(spec_parse_u64(r12) == Some((v.last_updated_ms, r13)));
    lemma_expect_prefix(p13, r14);
    assert(spec_expect(r13, p13) == Some(r14));
    lemma_parse_policy_of_encode(v.policy, r15);
    assert(spec_parse_policy(r14) == Some((v.policy, r15)));
    lemma_expect_prefix(p15, rest);
    assert(spec_expect(r15, p15) == Some(rest));
    let parsed = StateView {
        format_version: (v.format_version as u64) as u32,
        pod_name: v.pod_name,
        pod_id: v.pod_id,
        target: v.target,
        last_remote: v.last_remote,
        last_updated_ms: v.last_updated_ms,
        policy: v.policy,
    };
    assert(parsed =~= v);
    assert(spec_parse_state(t) == Some((parsed, rest)));
}

/// The persistence round trip: decoding an encoded state yields the state
/// back, field for field, and a valid state decodes without error.
pub proof fn lemma_state_round_trip(v: StateView)
    ensures
        spec_parse_state(spec_encode_state(v)) == Some((v, Seq::<char>::empty())),
        wf_state(v) ==> spec_decode_state(spec_encode_state(v)) == Ok::<
            StateView,
            StateDocError,
        >(v),
{
    lemma_parse_state_of_encode(v, Seq::<char>::empty());
    assert(spec_encode_state(v) + Seq::<char>::empty() =~= spec_encode_state(v));
}

/// Decode and validate: a malformed text, a foreign format version, or a
/// blank name is rejected, each with its own error.
pub open spec fn spec_decode_state(t: Seq<char>) -> Result<StateView, StateDocError> {
    match spec_parse_state(t) {
        None => Err(StateDocError::Malformed),
        Some((v, rest)) => if rest.len() != 0 {
            Err(StateDocError::Malformed)
        } else if v.format_version != STATE_FORMAT_VERSION {
            Err(StateDocError::WrongVersion)
        } else if is_blank(v.pod_name) {
            Err(StateDocError::EmptyName)
        } else {
            Ok(v)
        },
    }
}

// ---------------------------------------------------------------------------
// Executable encoder
// ---------------------------------------------------------------------------

/// Check that a state is fit to persist.
pub fn validate_state(st: &RunPodState) -> (r: Result<(), StateDocError>)
    ensures
        match r {
            Ok(()) => wf_state(st@),
            Err(e) => match e {
                StateDocError::WrongVersion => st@.format_version != STATE_FORMAT_VERSION,
                StateDocError::EmptyName => st@.format_version == STATE_FORMAT_VERSION && is_blank(
                    st@.pod_name,
                ),
                StateDocError::Malformed => false,
            },
        },
{
    if st.format_version != STATE_FORMAT_VERSION {
        Err(StateDocError::WrongVersion)
    } else if str_is_blank(st.pod_name.as_str()) {
        Err(StateDocError::EmptyName)
    } else {
        Ok(())
    }
}

/// The JSON object text of a snapshot.
fn encode_snapshot(snap: &RemotePodSnapshot) -> (r: String)
    ensures
        r@ == spec_encode_snap(snap@),
{
    let mut out = String::new();
    out.append("{\"id\":");
    proof {
        assert(Seq::<char>::empty() + "{\"id\":"@ =~= "{\"id\":"@);
    }
    append_json_string(&mut out, snap.id.as_str());
    out.append(",\"name\":");
    append_json_string(&mut out, snap.name.as_str());
    out.append(",\"desired_status\":");
    match snap.desired_status {
        PodDesiredStatus::Running => out.append("\"RUNNING\""),
        PodDesiredStatus::Exited => out.append("\"EXITED\""),
        PodDesiredStatus::Terminated => out.append("\"TERMINATED\""),
    }
    out.append(",\"observed_at_ms\":");
    append_u64(&mut out, snap.observed_at_ms);
    out.append("}");
    out
}

/// The JSON object text of a policy.
fn encode_policy(policy: &StatePolicy) -> (r: String)
    ensures
        r@ == spec_encode_policy(*policy),
{
    let mut out = String::new();
    out.append("{\"reuse_exited_pod\":");
    proof {
        assert(Seq::<char>::empty() + "{\"reuse_exited_pod\":"@ =~= "{\"reuse_exited_pod\":"@);
    }
    if policy.reuse_exited_pod {
        out.append("true");
    } else {
        out.append("false");
    }
    out.append(",\"auto_terminate_after_exited_ms\":");
    match policy.auto_terminate_after_exited_ms {
        Some(n) => append_u64(&mut out, n),
        None => out.append("null"),
    }
    out.append("}");
    out
}

/// The state document text of a state: the fixed field order, no
/// whitespace, enum values as upper-snake-case tokens.
pub fn encode_state(st: &RunPodState) -> (r: String)
    ensures
        r@ == spec_encode_state(st@),
{
    let mut out = String::new();
    out.append("{\"format_version\":");
    proof {
        assert(Seq::<char>::empty() + "{\"format_version\":"@ =~= "{\"format_version\":"@);
    }
    append_u64(&mut out, st.format_version as u64);
    out.append(",\"pod_name\":");
    append_json_string(&mut out, st.pod_name.as_str());
    out.append(",\"pod_id\":");
    match &st.pod_id {
        Some(id) => append_json_string(&mut out, id.as_str()),
        None => out.append("null"),
    }
    out.append(",\"target\":");
    match st.target {
        TargetStatus::Running => out.append("\"RUNNING\""),
        TargetStatus::Exited => out.append("\"EXITED\""),
        TargetStatus::Terminated => out.append("\"TERMINATED\""),
    }
    out.append(",\"last_remote\":");
    match &st.last_remote {
        Some(snap) => {
            let snap_text = encode_snapshot(snap);
            out.append(snap_text.as_str());
        },
        None => out.append("null"),
    }
    out.append(",\"last_updated_ms\":");
    append_u64(&mut out, st.last_updated_ms);
    out.append(",\"policy\":");
    let policy_text = encode_policy(&st.policy);
    out.append(policy_text.as_str());
    out.append("}");
    out
}

// ---------------------------------------------------------------------------
// Executable parser
// ---------------------------------------------------------------------------

/// Parse a status token at position `i` of `s`.
fn parse_status_at(s: &str, i: usize) -> (r: Option<(PodDesiredStatus, usize)>)
    requires
        i <= s@.len(),
    ensures
        match r {
            Some(p) => i <= p.1 <= s@.len() && spec_parse_status(s@.skip(i as int)) == Some(
                (p.0, s@.skip(p.1 as int)),
            ),
            None => spec_parse_status(s@.skip(i as int)) is None,
        },
{
    match expect_lit_at(s, i, "\"RUNNING\"") {
        Some(j) => Some((PodDesiredStatus::Running, j)),
        None => match expect_lit_at(s, i, "\"EXITED\"") {
            Some(j) => Some((PodDesiredStatus::Exited, j)),
            None => match expect_lit_at(s, i, "\"TERMINATED\"") {
                Some(j) => Some((PodDesiredStatus::Terminated, j)),
                None => None,
            },
        },
    }
}

/// Parse a target token at position `i` of `s`.
fn parse_target_at(s: &str, i: usize) -> (r: Option<(TargetStatus, usize)>)
    requires
        i <= s@.len(),
    ensures
        match r {
            Some(p) => i <= p.1 <= s@.len() && spec_parse_target(s@.skip(i as int)) == Some(
                (p.0, s@.skip(p.1 as int)),
            ),
            None => spec_parse_target(s@.skip(i as int)) is None,
        },
{
    match expect_lit_at(s, i, "\"RUNNING\"") {
        Some(j) => Some((TargetStatus::Running, j)),
        None => match expect_lit_at(s, i, "\"EXITED\"") {
            Some(j) => Some((TargetStatus::Exited, j)),
            None => match expect_lit_at(s, i, "\"TERMINATED\"") {
                Some(j) => Some((TargetStatus::Terminated, j)),
                None => None,
            },
        },
    }
}

/// Parse `null` or a JSON string at position `i` of `s`.
fn parse_opt_string_at(s: &str, i: usize) -> (r: Option<(Option<String>, usize)>)
    requires
        i <= s@.len(),
    ensures
        match r {
            Some(p) => i <= p.1 <= s@.len() && ({
                let v: Option<Seq<char>> = match p.0 {
                    Some(x) => Some(x@),
                    None => None,
                };
                spec_parse_opt_string(s@.skip(i as int)) == Some((v, s@.skip(p.1 as int)))
            }),
            None => spec_parse_opt_string(s@.skip(i as int)) is None,
        },
{
    match expect_lit_at(s, i, "null") {
        Some(j) => Some((None, j)),
        None => match parse_string_at(s, i) {
            Some((x, j)) => Some((Some(x), j)),
            None => None,
        },
    }
}

/// Parse `null` or a decimal number at position `i` of `s`.
fn parse_opt_u64_at(s: &str, i: usize) -> (r: Option<(Option<u64>, usize)>)
    requires
        i <= s@.len(),
    ensures
        match r {
            Some(p) => i <= p.1 <= s@.len() && spec_parse_opt_u64(s@.skip(i as int)) == Some(
                (p.0, s@.skip(p.1 as int)),
            ),
            None => spec_parse_opt_u64(s@.skip(i as int)) is None,
        },
{
    match expect_lit_at(s, i, "null") {
        Some(j) => Some((None, j)),
        None => match parse_u64_at(s, i) {
            Some((n, j)) => Some((Some(n), j)),
            None => None,
        },
    }
}

/// Parse a snapshot object at position `i` of `s`.
fn parse_snapshot_at(s: &str, i: usize) -> (r: Option<(RemotePodSnapshot, usize)>)
    requires
        i <= s@.len(),
    ensures
        match r {
            Some(p) => i <= p.1 <= s@.len() && spec_parse_snap(s@.skip(i as int)) == Some(
                (p.0@, s@.skip(p.1 as int)),
            ),
            None => spec_parse_snap(s@.skip(i as int)) is None,
        },
{
    let j = match expect_lit_at(s, i, "{\"id\":") {
        Some(j) => j,
        None => {
            return None;
        },
    };
    let (id, j) = match parse_string_at(s, j) {
        Some(p) => p,
        None => {
            return None;
        },
    };
    let j = match expect_lit_at(s, j, ",\"name\":") {
        Some(j) => j,
        None => {
            return None;
        },
    };
    let (name, j) = match parse_string_at(s, j) {
        Some(p) => p,
        None => {
            return None;
        },
    };
    let j = match expect_lit_at(s, j, ",\"desired_status\":") {
        Some(j) => j,
        None => {
            return None;
        },
    };
    let (status, j) = match parse_status_at(s, j) {
        Some(p) => p,
        None => {
            return None;
        },
    };
    let j = match expect_lit_at(s, j, ",\"observed_at_ms\":") {
        Some(j) => j,
        None => {
            return None;
        },
    };
    let (ms, j) = match parse_u64_at(s, j) {
        Some(p) => p,
        None => {
            return None;
        },
    };
    let j = match expect_lit_at(s, j, "}") {
        Some(j) => j,
        None => {
            return None;
        },
    };
    Some(
        (
            RemotePodSnapshot {
                id: PodId::new(id),
                name: name,
                desired_status: status,
                observed_at_ms: ms,
            },
            j,
        ),
    )
}

/// Parse `null` or a snapshot object at position `i` of `s`.
fn parse_opt_snapshot_at(s: &str, i: usize) -> (r: Option<(Option<RemotePodSnapshot>, usize)>)
    requires
        i <= s@.len(),
    ensures
        match r {
            Some(p) => i <= p.1 <= s@.len() && ({
                let v: Option<SnapView> = match p.0 {
                    Some(snap) => Some(snap@),
                    None => None,
                };
                spec_parse_opt_snap(s@.skip(i as int)) == Some((v, s@.skip(p.1 as int)))
            }),
            None => spec_parse_opt_snap(s@.skip(i as int)) is None,
        },
{
    match expect_lit_at(s, i, "null") {
        Some(j) => Some((None, j)),
        None => match parse_snapshot_at(s, i) {
            Some((snap, j)) => Some((Some(snap), j)),
            None => None,
        },
    }
}

/// Parse one optional string field at position `i` of `s`.
fn parse_field_opt_string_at(s: &str, i: usize, label: &str) -> (r: Option<
    (Option<String>, usize),
>)
    requires
        i <= s@.len(),
    ensures
        match r {
            Some(p) => i <= p.1 <= s@.len() && ({
                let v: Option<Seq<char>> = match p.0 {
                    Some(x) => Some(x@),
                    None => None,
                };
                spec_parse_field_opt_string(s@.skip(i as int), label@) == Some(
                    (v, s@.skip(p.1 as int)),
                )
            }),
            None => spec_parse_field_opt_string(s@.skip(i as int), label@) is None,
        },
{
    match expect_lit_at(s, i, label) {
        Some(j) => parse_opt_string_at(s, j),
        None => Some((None, i)),
    }
}

/// Parse one optional number field at position `i` of `s`.
fn parse_field_opt_u64_at(s: &str, i: usize, label: &str) -> (r: Option<(Option<u64>, usize)>)
    requires
        i <= s@.len(),
    ensures
        match r {
            Some(p) => i <= p.1 <= s@.len() && spec_parse_field_opt_u64(
                s@.skip(i as int),
                label@,
            ) == Some((p.0, s@.skip(p.1 as int))),
            None => spec_parse_field_opt_u64(s@.skip(i as int), label@) is None,
        },
{
    match expect_lit_at(s, i, label) {
        Some(j) => parse_opt_u64_at(s, j),
        None => Some((None, i)),
    }
}

/// Parse one optional snapshot field at position `i` of `s`.
fn parse_field_opt_snapshot_at(s: &str, i: usize, label: &str) -> (r: Option<
    (Option<RemotePodSnapshot>, usize),
>)
    requires
        i <= s@.len(),
    ensures
        match r {
            Some(p) => i <= p.1 <= s@.len() && ({
                let v: Option<SnapView> = match p.0 {
                    Some(snap) => Some(snap@),
                    None => None,
                };
                spec_parse_field_opt_snap(s@.skip(i as int), label@) == Some(
                    (v, s@.skip(p.1 as int)),
                )
            }),
            None => spec_parse_field_opt_snap(s@.skip(i as int), label@) is None,
        },
{
    match expect_lit_at(s, i, label) {
        Some(j) => parse_opt_snapshot_at(s, j),
        None => Some((None, i)),
    }
}

/// Parse a policy object at position `i` of `s`.
fn parse_policy_at(s: &str, i: usize) -> (r: Option<(StatePolicy, usize)>)
    requires
        i <= s@.len(),
    ensures
        match r {
            Some(p) => i <= p.1 <= s@.len() && spec_parse_policy(s@.skip(i as int)) == Some(
                (p.0, s@.skip(p.1 as int)),
            ),
            None => spec_parse_policy(s@.skip(i as int)) is None,
        },
{
    let j = match expect_lit_at(s, i, "{\"reuse_exited_pod\":") {
        Some(j) => j,
        None => {
            return None;
        },
    };
    let (reuse, j) = match parse_bool_at(s, j) {
        Some(p) => p,
        None => {
            return None;
        },
    };
    let (auto_ms, j) = match parse_field_opt_u64_at(s, j, ",\"auto_terminate_after_exited_ms\":") {
        Some(p) => p,
        None => {
            return None;
        },
    };
    let j = match expect_lit_at(s, j, "}") {
        Some(j) => j,
        None => {
            return None;
        },
    };
    Some((StatePolicy { reuse_exited_pod: reuse, auto_terminate_after_exited_ms: auto_ms }, j))
}

/// Parse a whole state document at position `i` of `s`.
#[verifier::rlimit(100)]
fn parse_state_at(s: &str, i: usize) -> (r: Option<(RunPodState, usize)>)
    requires
        i <= s@.len(),
    ensures
        match r {
            Some(p) => i <= p.1 <= s@.len() && spec_parse_state(s@.skip(i as int)) == Some(
                (p.0@, s@.skip(p.1 as int)),
            ),
            None => spec_parse_state(s@.skip(i as int)) is None,
        },
{
    let j = match expect_lit_at(s, i, "{\"format_version\":") {
        Some(j) => j,
        None => {
            return None;
        },
    };
    let (fv, j) = match parse_u64_at(s, j) {
        Some(p) => p,
        None => {
            return None;
        },
    };
    if fv > u32::MAX as u64 {
        return None;
    }
    let j = match expect_lit_at(s, j, ",\"pod_name\":") {
        Some(j) => j,
        None => {
            return None;
        },
    };
    let (name, j) = match parse_string_at(s, j) {
        Some(p) => p,
        None => {
            return None;
        },
    };
    let (pod_id, j) = match parse_field_opt_string_at(s, j, ",\"pod_id\":") {
        Some(p) => p,
        None => {
            return None;
        },
    };
    let j = match expect_lit_at(s, j, ",\"target\":") {
        Some(j) => j,
        None => {
            return None;
        },
    };
    let (target, j) = match parse_target_at(s, j) {
        Some(p) => p,
        None => {
            return None;
        },
    };
    let (last_remote, j) = match parse_field_opt_snapshot_at(s, j, ",\"last_remote\":") {
        Some(p) => p,
        None => {
            return None;
        },
    };
    let j = match expect_lit_at(s, j, ",\"last_updated_ms\":") {
        Some(j) => j,
        None => {
            return None;
        },
    };
    let (upd, j) = match parse_u64_at(s, j) {
        Some(p) => p,
        None => {
            return None;
        },
    };
    let j = match expect_lit_at(s, j, ",\"policy\":") {
        Some(j) => j,
        None => {
            return None;
        },
    };
    let (policy, j) = match parse_policy_at(s, j) {
        Some(p) => p,
        None => {
            return None;
        },
    };
    let j = match expect_lit_at(s, j, "}") {
        Some(j) => j,
        None => {
            return None;
        },
    };
    let st = RunPodState {
        format_version: fv as u32,
        pod_name: name,
        pod_id: match pod_id {
            Some(raw) => Some(PodId::new(raw)),
            None => None,
        },
        target: target,
        last_remote: last_remote,
        last_updated_ms: upd,
        policy: policy,
    };
    Some((st, j))
}

/// Decode a whole state document and validate it: the text must parse to
/// its end, carry this engine's format version, and name the pod.
pub fn decode_state(s: &str) -> (r: Result<RunPodState, StateDocError>)
    ensures
        match r {
            Ok(st) => spec_decode_state(s@) == Ok::<StateView, StateDocError>(st@),
            Err(e) => spec_decode_state(s@) == Err::<StateView, StateDocError>(e),
        },
{
    proof {
        assert(s@.skip(0) =~= s@);
    }
    let parsed = parse_state_at(s, 0);
    match parsed {
        None => Err(StateDocError::Malformed),
        Some((st, j)) => {
            if j != s.unicode_len() {
                Err(StateDocError::Malformed)
            } else if st.format_version != STATE_FORMAT_VERSION {
                Err(StateDocError::WrongVersion)
            } else if str_is_blank(st.pod_name.as_str()) {
                Err(StateDocError::EmptyName)
            } else {
                proof {
                    assert(s@.skip(s@.len() as int) =~= Seq::<char>::empty());
                }
                Ok(st)
            }
        },
    }
}

} // verus!
