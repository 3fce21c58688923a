//! The JSON image of a [`SystemState`], as the push channel sends it.
//!
//! The document reads
//! `{"time":T,"gates":[{"active":B,"last_activation_time":N,"last_beacon_time":N},...],`
//! `"race":{"start_time":N,"finish_time":N,"duration_ms":N}}`
//! with integers in decimal and `null` for an absent instant or duration.
use vstd::prelude::*;

use crate::app::gates::Gate;
use crate::app::race::Race;
use crate::app::SystemState;

verus! {

/// `{"time":`
pub open spec fn spec_lit_doc_head() -> Seq<u8> {
    seq![123u8, 34u8, 116u8, 105u8, 109u8, 101u8, 34u8, 58u8]
}

/// `,"gates":[`
pub open spec fn spec_lit_gates_head() -> Seq<u8> {
    seq![44u8, 34u8, 103u8, 97u8, 116u8, 101u8, 115u8, 34u8, 58u8, 91u8]
}

/// `{"active":`
pub open spec fn spec_lit_gate_head() -> Seq<u8> {
    seq![123u8, 34u8, 97u8, 99u8, 116u8, 105u8, 118u8, 101u8, 34u8, 58u8]
}

/// `,"last_activation_time":`
pub open spec fn spec_lit_last_activation() -> Seq<u8> {
    seq![
        44u8,
        34u8,
        108u8,
        97u8,
        115u8,
        116u8,
        95u8,
        97u8,
        99u8,
        116u8,
        105u8,
        118u8,
        97u8,
        116u8,
        105u8,
        111u8,
        110u8,
        95u8,
        116u8,
        105u8,
        109u8,
        101u8,
        34u8,
        58u8,
    ]
}

/// `,"last_beacon_time":`
pub open spec fn spec_lit_last_beacon() -> Seq<u8> {
    seq![
        44u8,
        34u8,
        108u8,
        97u8,
        115u8,
        116u8,
        95u8,
        98u8,
        101u8,
        97u8,
        99u8,
        111u8,
        110u8,
        95u8,
        116u8,
        105u8,
        109u8,
        101u8,
        34u8,
        58u8,
    ]
}

/// `],"race":{"start_time":`
pub open spec fn spec_lit_race_head() -> Seq<u8> {
    seq![
        93u8,
        44u8,
        34u8,
        114u8,
        97u8,
        99u8,
        101u8,
        34u8,
        58u8,
        123u8,
        34u8,
        115u8,
        116u8,
        97u8,
        114u8,
        116u8,
        95u8,
        116u8,
        105u8,
        109u8,
        101u8,
        34u8,
        58u8,
    ]
}

/// `,"finish_time":`
pub open spec fn spec_lit_finish_time() -> Seq<u8> {
    seq![44u8, 34u8, 102u8, 105u8, 110u8, 105u8, 115u8, 104u8, 95u8, 116u8, 105u8, 109u8, 101u8, 34u8, 58u8]
}

/// `,"duration_ms":`
pub open spec fn spec_lit_duration() -> Seq<u8> {
    seq![44u8, 34u8, 100u8, 117u8, 114u8, 97u8, 116u8, 105u8, 111u8, 110u8, 95u8, 109u8, 115u8, 34u8, 58u8]
}

/// `}}`
pub open spec fn spec_lit_doc_tail() -> Seq<u8> {
    seq![125u8, 125u8]
}

/// `true`
pub open spec fn spec_lit_true() -> Seq<u8> {
    seq![116u8, 114u8, 117u8, 101u8]
}

/// `false`
pub open spec fn spec_lit_false() -> Seq<u8> {
    seq![102u8, 97u8, 108u8, 115u8, 101u8]
}

/// `null`
pub open spec fn spec_lit_null() -> Seq<u8> {
    seq![110u8, 117u8, 108u8, 108u8]
}

/// The decimal digits of a nonnegative number, most significant first.
pub open spec fn spec_dec_digits(n: int) -> Seq<u8>
    recommends
        n >= 0,
    decreases n,
{
    if n < 10 {
        seq![(48 + n) as u8]
    } else {
        spec_dec_digits(n / 10).push((48 + n % 10) as u8)
    }
}

/// A decimal integer, with a leading minus for a negative one.
pub open spec fn spec_json_int(n: int) -> Seq<u8> {
    if n < 0 {
        seq![45u8] + spec_dec_digits(-n)
    } else {
        spec_dec_digits(n)
    }
}

/// An optional instant: its milliseconds, or `null`.
pub open spec fn spec_json_opt_instant(
    t: Option<crate::svc::clock::CoordinatedInstant>,
) -> Seq<u8> {
    match t {
        Some(c) => spec_json_int(c@ as int),
        None => spec_lit_null(),
    }
}

/// An optional duration: its milliseconds, or `null`.
pub open spec fn spec_json_opt_u64(d: Option<u64>) -> Seq<u8> {
    match d {
        Some(n) => spec_dec_digits(n as int),
        None => spec_lit_null(),
    }
}

pub open spec fn spec_json_bool(b: bool) -> Seq<u8> {
    if b {
        spec_lit_true()
    } else {
        spec_lit_false()
    }
}

/// One gate object.
pub open spec fn spec_json_gate(g: Gate) -> Seq<u8> {
    spec_lit_gate_head() + spec_json_bool(g.active) + spec_lit_last_activation()
        + spec_json_opt_instant(g.last_activation_time) + spec_lit_last_beacon()
        + spec_json_opt_instant(g.last_beacon_time) + seq![125u8]
}

/// The race object body, after its `{"start_time":` head.
pub open spec fn spec_json_race_rest(r: Race) -> Seq<u8> {
    spec_json_opt_instant(r.start_time) + spec_lit_finish_time() + spec_json_opt_instant(
        r.finish_time,
    ) + spec_lit_duration() + spec_json_opt_u64(r.duration)
}

/// The whole document.
pub open spec fn spec_json_of(s: SystemState) -> Seq<u8> {
    spec_lit_doc_head() + spec_json_int(s.time@ as int) + spec_lit_gates_head() + spec_json_gate(
        s.gates@[0],
    ) + seq![44u8] + spec_json_gate(s.gates@[1]) + seq![44u8] + spec_json_gate(s.gates@[2])
        + seq![44u8] + spec_json_gate(s.gates@[3]) + spec_lit_race_head() + spec_json_race_rest(
        s.race,
    ) + spec_lit_doc_tail()
}

/// Append a byte string.
fn push_bytes(out: &mut Vec<u8>, bytes: &[u8])
    ensures
        final(out)@ =~= old(out)@ + bytes@,
{
    let mut i: usize = 0;
    while i < bytes.len()
        invariant
            0 <= i <= bytes@.len(),
            out@ =~= old(out)@ + bytes@.take(i as int),
        decreases bytes@.len() - i,
    {
        out.push(bytes[i]);
        proof {
            assert(out@ =~= old(out)@ + bytes@.take(i as int + 1));
        }
        i += 1;
    }
    proof {
        assert(bytes@.take(bytes@.len() as int) =~= bytes@);
    }
}

/// Append the decimal digits of a nonnegative number.
fn push_dec_u64(out: &mut Vec<u8>, n: u64)
    ensures
        final(out)@ =~= old(out)@ + spec_dec_digits(n as int),
    decreases n,
{
    if n < 10 {
        out.push(48 + n as u8);
    } else {
        push_dec_u64(out, n / 10);
        out.push(48 + (n % 10) as u8);
    }
}

/// Append a decimal integer, minus sign included.
fn push_int_i64(out: &mut Vec<u8>, n: i64)
    requires
        n > i64::MIN,
    ensures
        final(out)@ =~= old(out)@ + spec_json_int(n as int),
{
    if n < 0 {
        out.push(45u8);
        push_dec_u64(out, (-n) as u64);
    } else {
        push_dec_u64(out, n as u64);
    }
}

/// Append an optional instant.
fn push_opt_instant(out: &mut Vec<u8>, t: &Option<crate::svc::clock::CoordinatedInstant>)
    ensures
        final(out)@ =~= old(out)@ + spec_json_opt_instant(*t),
{
    match t {
        Some(c) => push_int_i64(out, c.as_millis() as i64),
        None => push_bytes(out, &[110u8, 117u8, 108u8, 108u8]),
    }
}

/// Append one gate object.
fn push_gate(out: &mut Vec<u8>, g: &Gate)
    ensures
        final(out)@ =~= old(out)@ + spec_json_gate(*g),
{
    push_bytes(out, &[123u8, 34u8, 97u8, 99u8, 116u8, 105u8, 118u8, 101u8, 34u8, 58u8]);
    if g.active {
        push_bytes(out, &[116u8, 114u8, 117u8, 101u8]);
    } else {
        push_bytes(out, &[102u8, 97u8, 108u8, 115u8, 101u8]);
    }
    push_bytes(
        out,
        &[
            44u8,
            34u8,
            108u8,
            97u8,
            115u8,
            116u8,
            95u8,
            97u8,
            99u8,
            116u8,
            105u8,
            118u8,
            97u8,
            116u8,
            105u8,
            111u8,
            110u8,
            95u8,
            116u8,
            105u8,
            109u8,
            101u8,
            34u8,
            58u8,
        ],
    );
    push_opt_instant(out, &g.last_activation_time);
    push_bytes(
        out,
        &[
            44u8,
            34u8,
            108u8,
            97u8,
            115u8,
            116u8,
            95u8,
            98u8,
            101u8,
            97u8,
            99u8,
            111u8,
            110u8,
            95u8,
            116u8,
            105u8,
            109u8,
            101u8,
            34u8,
            58u8,
        ],
    );
    push_opt_instant(out, &g.last_beacon_time);
    push_bytes(out, &[125u8]);
}

/// Serialize a system state to its JSON document, as UTF-8 bytes.
pub fn system_state_to_json(s: &SystemState) -> (r: Vec<u8>)
    ensures
        r@ =~= spec_json_of(*s),
{
    let mut out: Vec<u8> = Vec::new();
    push_bytes(&mut out, &[123u8, 34u8, 116u8, 105u8, 109u8, 101u8, 34u8, 58u8]);
    push_int_i64(&mut out, s.time.as_millis() as i64);
    push_bytes(&mut out, &[44u8, 34u8, 103u8, 97u8, 116u8, 101u8, 115u8, 34u8, 58u8, 91u8]);
    push_gate(&mut out, s.gates.gate_at(0));
    push_bytes(&mut out, &[44u8]);
    push_gate(&mut out, s.gates.gate_at(1));
    push_bytes(&mut out, &[44u8]);
    push_gate(&mut out, s.gates.gate_at(2));
    push_bytes(&mut out, &[44u8]);
    push_gate(&mut out, s.gates.gate_at(3));
    push_bytes(
        &mut out,
        &[
            93u8,
            44u8,
            34u8,
            114u8,
            97u8,
            99u8,
            101u8,
            34u8,
            58u8,
            123u8,
            34u8,
            115u8,
            116u8,
            97u8,
            114u8,
            116u8,
            95u8,
            116u8,
            105u8,
            109u8,
            101u8,
            34u8,
            58u8,
        ],
    );
    push_opt_instant(&mut out, &s.race.start_time);
    push_bytes(
        &mut out,
        &[44u8, 34u8, 102u8, 105u8, 110u8, 105u8, 115u8, 104u8, 95u8, 116u8, 105u8, 109u8, 101u8, 34u8, 58u8],
    );
    push_opt_instant(&mut out, &s.race.finish_time);
    push_bytes(
        &mut out,
        &[44u8, 34u8, 100u8, 117u8, 114u8, 97u8, 116u8, 105u8, 111u8, 110u8, 95u8, 109u8, 115u8, 34u8, 58u8],
    );
    match s.race.duration {
        Some(d) => push_dec_u64(&mut out, d),
        None => push_bytes(&mut out, &[110u8, 117u8, 108u8, 108u8]),
    }
    push_bytes(&mut out, &[125u8, 125u8]);
    out
}

} // verus!
