//! Encoding of tick messages into JSON trees, and the law that decoding
//! undoes it.
use vstd::prelude::*;
use crate::clock::handle_outcome;
use crate::json::{Json, Num, lookup, lemma_find_skips, parsed_json};
use crate::tick::{
    AccumulatorData, Field, TickMessage, TickView, accs_view, accumulator_items, accumulator_of, decoded,
    int_items, int_of, message_of, names_unique, opt_view, str_items, strings_view,
};

verus! {

/// The position of each field in an encoded message.
pub open spec fn field_at(i: int) -> Field {
    if i == 0 { Field::Id }
    else if i == 1 { Field::ShortId }
    else if i == 2 { Field::EventType }
    else if i == 3 { Field::Stamp }
    else if i == 4 { Field::Interval }
    else if i == 5 { Field::Paused }
    else if i == 6 { Field::Stepping }
    else if i == 7 { Field::StartTime }
    else if i == 8 { Field::Namespace }
    else if i == 9 { Field::Backpressure }
    else if i == 10 { Field::WallTime }
    else if i == 11 { Field::CurrentChoice }
    else if i == 12 { Field::Transport }
    else if i == 13 { Field::Disposition }
    else if i == 14 { Field::Connected }
    else { Field::Accumulators }
}

/// The position of each field in an encoded accumulator.
pub open spec fn acc_field_at(i: int) -> Field {
    if i == 0 { Field::AccInterval }
    else if i == 1 { Field::AccElapsed }
    else if i == 2 { Field::AccCycles }
    else if i == 3 { Field::AccRunning }
    else { Field::AccRepeating }
}

/// The JSON integer that stands for an `i32`.
pub open spec fn int_json(x: i32) -> Json {
    if x >= 0 {
        Json::Num(Num::PosInt(x as u64))
    } else {
        Json::Num(Num::NegInt(x as i64))
    }
}

pub open spec fn encodes_str(j: Json, s: Seq<char>) -> bool {
    j is Str && j->Str_0@ == s
}

pub open spec fn encodes_opt(j: Json, o: Option<Seq<char>>) -> bool {
    match o {
        Some(s) => encodes_str(j, s),
        None => j is Null,
    }
}

pub open spec fn encodes_ints(j: Json, w: Seq<i32>) -> bool {
    &&& j is Array
    &&& j->Array_0@.len() == w.len()
    &&& forall|i: int| 0 <= i < w.len() ==> j->Array_0@[i] == int_json(w[i])
}

pub open spec fn encodes_strs(j: Json, t: Seq<Seq<char>>) -> bool {
    &&& j is Array
    &&& j->Array_0@.len() == t.len()
    &&& forall|i: int| 0 <= i < t.len() ==> encodes_str(j->Array_0@[i], t[i])
}

/// `es` has one entry per field of a message, in declaration order.
pub open spec fn keyed_message(es: Seq<(String, Json)>) -> bool {
    &&& es.len() == 16
    &&& forall|i: int| 0 <= i < 16 ==> (#[trigger] es[i]).0@ == field_at(i).key()
}

/// `es` has one entry per field of an accumulator, in declaration order.
pub open spec fn keyed_accumulator(es: Seq<(String, Json)>) -> bool {
    &&& es.len() == 5
    &&& forall|i: int| 0 <= i < 5 ==> (#[trigger] es[i]).0@ == acc_field_at(i).key()
}

/// `j` is an object of five entries that holds `a`.
pub open spec fn encodes_acc(j: Json, a: AccumulatorData) -> bool {
    &&& j is Object
    &&& keyed_accumulator(j->Object_0@)
    &&& j->Object_0@[0].1 == Json::Num(a.interval)
    &&& j->Object_0@[1].1 == Json::Num(a.elapsed)
    &&& j->Object_0@[2].1 == Json::Num(Num::PosInt(a.cycles))
    &&& j->Object_0@[3].1 == Json::Bool(a.running)
    &&& j->Object_0@[4].1 == Json::Bool(a.repeating)
}

pub open spec fn encodes_accs(j: Json, accs: Seq<(Seq<char>, AccumulatorData)>) -> bool {
    &&& j is Object
    &&& j->Object_0@.len() == accs.len()
    &&& forall|i: int| 0 <= i < accs.len() ==> {
        &&& (#[trigger] j->Object_0@[i]).0@ == accs[i].0
        &&& encodes_acc(j->Object_0@[i].1, accs[i].1)
    }
}

/// `j` is the object that encodes `v`: one entry per field, in declaration
/// order.
pub open spec fn encodes(v: TickView, j: Json) -> bool {
    &&& j is Object
    &&& keyed_message(j->Object_0@)
    &&& encodes_str(j->Object_0@[0].1, v.id)
    &&& encodes_str(j->Object_0@[1].1, v.short_id)
    &&& encodes_str(j->Object_0@[2].1, v.event_type)
    &&& j->Object_0@[3].1 == Json::Num(v.stamp)
    &&& j->Object_0@[4].1 == Json::Num(v.interval)
    &&& j->Object_0@[5].1 == Json::Bool(v.paused)
    &&& j->Object_0@[6].1 == Json::Bool(v.stepping)
    &&& j->Object_0@[7].1 == Json::Num(v.start_time)
    &&& encodes_str(j->Object_0@[8].1, v.namespace)
    &&& j->Object_0@[9].1 == Json::Bool(v.backpressure)
    &&& encodes_ints(j->Object_0@[10].1, v.wall_time)
    &&& encodes_opt(j->Object_0@[11].1, v.current_choice)
    &&& encodes_strs(j->Object_0@[12].1, v.transport)
    &&& encodes_opt(j->Object_0@[13].1, v.disposition)
    &&& j->Object_0@[14].1 == Json::Bool(v.connected)
    &&& encodes_accs(j->Object_0@[15].1, v.accumulators)
}

/// Distinct fields have distinct keys: no two agree in length and first two
/// characters.
proof fn lemma_keys_distinct()
    ensures
        forall|m: int, p: int| 0 <= m < p < 16 ==> field_at(m).key() != field_at(p).key(),
        forall|m: int, p: int| 0 <= m < p < 5 ==> acc_field_at(m).key() != acc_field_at(p).key(),
{
    reveal_strlit("id");
    reveal_strlit("short_id");
    reveal_strlit("event_type");
    reveal_strlit("stamp");
    reveal_strlit("interval");
    reveal_strlit("paused");
    reveal_strlit("stepping");
    reveal_strlit("start_time");
    reveal_strlit("namespace");
    reveal_strlit("backpressure");
    reveal_strlit("wall_time");
    reveal_strlit("current_choice");
    reveal_strlit("transport");
    reveal_strlit("disposition");
    reveal_strlit("connected");
    reveal_strlit("accumulators");
    reveal_strlit("elapsed");
    reveal_strlit("cycles");
    reveal_strlit("running");
    reveal_strlit("repeating");
    assert(field_at(0).key().len() == 2 && field_at(0).key()[0] == 'i' && field_at(0).key()[1] == 'd');
    assert(field_at(1).key().len() == 8 && field_at(1).key()[0] == 's' && field_at(1).key()[1] == 'h');
    assert(field_at(2).key().len() == 10 && field_at(2).key()[0] == 'e' && field_at(2).key()[1] == 'v');
    assert(field_at(3).key().len() == 5 && field_at(3).key()[0] == 's' && field_at(3).key()[1] == 't');
    assert(field_at(4).key().len() == 8 && field_at(4).key()[0] == 'i' && field_at(4).key()[1] == 'n');
    assert(field_at(5).key().len() == 6 && field_at(5).key()[0] == 'p' && field_at(5).key()[1] == 'a');
    assert(field_at(6).key().len() == 8 && field_at(6).key()[0] == 's' && field_at(6).key()[1] == 't');
    assert(field_at(7).key().len() == 10 && field_at(7).key()[0] == 's' && field_at(7).key()[1] == 't');
    assert(field_at(8).key().len() == 9 && field_at(8).key()[0] == 'n' && field_at(8).key()[1] == 'a');
    assert(field_at(9).key().len() == 12 && field_at(9).key()[0] == 'b' && field_at(9).key()[1] == 'a');
    assert(field_at(10).key().len() == 9 && field_at(10).key()[0] == 'w' && field_at(10).key()[1] == 'a');
    assert(field_at(11).key().len() == 14 && field_at(11).key()[0] == 'c' && field_at(11).key()[1] == 'u');
    assert(field_at(12).key().len() == 9 && field_at(12).key()[0] == 't' && field_at(12).key()[1] == 'r');
    assert(field_at(13).key().len() == 11 && field_at(13).key()[0] == 'd' && field_at(13).key()[1] == 'i');
    assert(field_at(14).key().len() == 9 && field_at(14).key()[0] == 'c' && field_at(14).key()[1] == 'o');
    assert(field_at(15).key().len() == 12 && field_at(15).key()[0] == 'a' && field_at(15).key()[1] == 'c');
    assert(acc_field_at(0).key().len() == 8 && acc_field_at(0).key()[0] == 'i' && acc_field_at(0).key()[1] == 'n');
    assert(acc_field_at(1).key().len() == 7 && acc_field_at(1).key()[0] == 'e' && acc_field_at(1).key()[1] == 'l');
    assert(acc_field_at(2).key().len() == 6 && acc_field_at(2).key()[0] == 'c' && acc_field_at(2).key()[1] == 'y');
    assert(acc_field_at(3).key().len() == 7 && acc_field_at(3).key()[0] == 'r' && acc_field_at(3).key()[1] == 'u');
    assert(acc_field_at(4).key().len() == 9 && acc_field_at(4).key()[0] == 'r' && acc_field_at(4).key()[1] == 'e');
    assert forall|m: int, p: int| 0 <= m < p < 16 implies field_at(m).key() != field_at(p).key() by {
        if field_at(m).key() == field_at(p).key() {
            assert(field_at(m).key()[0] == field_at(p).key()[0]);
            assert(field_at(m).key()[1] == field_at(p).key()[1]);
        }
    }
    assert forall|m: int, p: int| 0 <= m < p < 5 implies acc_field_at(m).key() != acc_field_at(p).key() by {
        if acc_field_at(m).key() == acc_field_at(p).key() {
            assert(acc_field_at(m).key()[0] == acc_field_at(p).key()[0]);
            assert(acc_field_at(m).key()[1] == acc_field_at(p).key()[1]);
        }
    }
}


proof fn lemma_message_lookup(es: Seq<(String, Json)>, p: int)
    requires
        keyed_message(es),
        0 <= p < 16,
    ensures
        lookup(es, field_at(p).key()) == Some(es[p].1),
{
    lemma_keys_distinct();
    let k = field_at(p).key();
    assert forall|m: int| 0 <= m < p implies es[m].0@ != k by {
        assert(es[m].0@ == field_at(m).key());
    }
    lemma_find_skips(es, k, 0, p);
    assert(es[p].0@ == k);
}

proof fn lemma_accumulator_lookup(es: Seq<(String, Json)>, p: int)
    requires
        keyed_accumulator(es),
        0 <= p < 5,
    ensures
        lookup(es, acc_field_at(p).key()) == Some(es[p].1),
{
    lemma_keys_distinct();
    let k = acc_field_at(p).key();
    assert forall|m: int| 0 <= m < p implies es[m].0@ != k by {
        assert(es[m].0@ == acc_field_at(m).key());
    }
    lemma_find_skips(es, k, 0, p);
    assert(es[p].0@ == k);
}

proof fn lemma_accumulator_decodes(j: Json, a: AccumulatorData)
    requires
        encodes_acc(j, a),
    ensures
        accumulator_of(j) == Ok::<AccumulatorData, crate::tick::DecodeError>(a),
{
    let es = j->Object_0@;
    lemma_accumulator_lookup(es, 0);
    lemma_accumulator_lookup(es, 1);
    lemma_accumulator_lookup(es, 2);
    lemma_accumulator_lookup(es, 3);
    lemma_accumulator_lookup(es, 4);
}

proof fn lemma_accumulators_decode(es: Seq<(String, Json)>, accs: Seq<(Seq<char>, AccumulatorData)>)
    requires
        es.len() == accs.len(),
        forall|i: int| 0 <= i < accs.len() ==> {
            &&& (#[trigger] es[i]).0@ == accs[i].0
            &&& encodes_acc(es[i].1, accs[i].1)
        },
        names_unique(accs),
    ensures
        accumulator_items(es) == Ok::<Seq<(Seq<char>, AccumulatorData)>, crate::tick::DecodeError>(accs),
    decreases es.len(),
{
    if es.len() == 0 {
        assert(accs =~= Seq::<(Seq<char>, AccumulatorData)>::empty());
    } else {
        let n = es.len() - 1;
        assert forall|i: int| 0 <= i < accs.drop_last().len() implies {
            &&& (#[trigger] es.drop_last()[i]).0@ == accs.drop_last()[i].0
            &&& encodes_acc(es.drop_last()[i].1, accs.drop_last()[i].1)
        } by {
            assert(es.drop_last()[i] == es[i]);
            assert(accs.drop_last()[i] == accs[i]);
        }
        assert forall|i: int, j: int| 0 <= i < j < accs.drop_last().len() implies
            accs.drop_last()[i].0 != accs.drop_last()[j].0 by {
            assert(accs.drop_last()[i] == accs[i] && accs.drop_last()[j] == accs[j]);
        }
        lemma_accumulators_decode(es.drop_last(), accs.drop_last());
        assert(es[n].0@ == accs[n].0);
        assert forall|i: int| 0 <= i < accs.drop_last().len() implies accs.drop_last()[i].0 != es.last().0@ by {
            assert(accs.drop_last()[i] == accs[i]);
        }
        lemma_accumulator_decodes(es.last().1, accs.last().1);
        assert(accs.drop_last().push((es.last().0@, accs.last().1)) =~= accs);
    }
}

/// Decoding undoes encoding: the tree that encodes a message decodes to that
/// same message, field for field.
pub proof fn lemma_round_trip(v: TickView, j: Json)
    requires
        v.wf(),
        encodes(v, j),
    ensures
        message_of(j) == Ok::<TickView, crate::tick::DecodeError>(v),
{
    let es = j->Object_0@;
    assert forall|p: int| 0 <= p < 16 implies lookup(es, field_at(p).key()) == Some(es[p].1) by {
        lemma_message_lookup(es, p);
    }
    let w = es[10].1->Array_0@;
    assert forall|i: int| 0 <= i < w.len() implies (#[trigger] int_of(w[i])) is Some
        && int_of(w[i])->Some_0 == v.wall_time[i] by {
        assert(w[i] == int_json(v.wall_time[i]));
    }
    assert(Seq::new(w.len(), |i: int| int_of(w[i])->Some_0) =~= v.wall_time);
    assert(int_items(w) == Some(v.wall_time));
    let t = es[12].1->Array_0@;
    assert forall|i: int| 0 <= i < t.len() implies (#[trigger] t[i]) is Str by {
        assert(encodes_str(t[i], v.transport[i]));
    }
    assert(Seq::new(t.len(), |i: int| t[i]->Str_0@) =~= v.transport);
    assert(str_items(t) == Some(v.transport));
    let m = es[15].1->Object_0@;
    lemma_accumulators_decode(m, v.accumulators);
}


/// Bytes that the parser reads as the tree encoding a message decode to that
/// message, and handling them succeeds.
pub proof fn lemma_payload_round_trip(b: Seq<u8>, v: TickView)
    requires
        v.wf(),
        parsed_json(b) matches Some(j) && encodes(v, j),
    ensures
        decoded(b) == Ok::<TickView, crate::tick::DecodeError>(v),
        handle_outcome(b) is Ok,
{
    lemma_round_trip(v, parsed_json(b)->Some_0);
}

fn str_json(s: &String) -> (r: Json)
    ensures
        encodes_str(r, s@),
{
    Json::Str(s.clone())
}

fn opt_json(o: &Option<String>) -> (r: Json)
    ensures
        encodes_opt(r, opt_view(*o)),
{
    match o {
        Some(s) => Json::Str(s.clone()),
        None => Json::Null,
    }
}

fn ints_json(w: &Vec<i32>) -> (r: Json)
    ensures
        encodes_ints(r, w@),
{
    let mut out: Vec<Json> = Vec::new();
    let mut i: usize = 0;
    while i < w.len()
        invariant
            i <= w.len(),
            out@.len() == i,
            forall|k: int| 0 <= k < i ==> out@[k] == int_json(w@[k]),
        decreases w.len() - i,
    {
        let x = w[i];
        if x >= 0 {
            out.push(Json::Num(Num::PosInt(x as u64)));
        } else {
            out.push(Json::Num(Num::NegInt(x as i64)));
        }
        i = i + 1;
    }
    Json::Array(out)
}

fn strs_json(t: &Vec<String>) -> (r: Json)
    ensures
        encodes_strs(r, strings_view(t@)),
{
    let mut out: Vec<Json> = Vec::new();
    let mut i: usize = 0;
    while i < t.len()
        invariant
            i <= t.len(),
            out@.len() == i,
            forall|k: int| 0 <= k < i ==> encodes_str(out@[k], t@[k]@),
        decreases t.len() - i,
    {
        out.push(Json::Str(t[i].clone()));
        i = i + 1;
    }
    Json::Array(out)
}

fn accumulator_json(a: &AccumulatorData) -> (r: Json)
    ensures
        encodes_acc(r, *a),
{
    let mut es: Vec<(String, Json)> = Vec::new();
    es.push((Field::AccInterval.name().to_owned(), Json::Num(a.interval)));
    es.push((Field::AccElapsed.name().to_owned(), Json::Num(a.elapsed)));
    es.push((Field::AccCycles.name().to_owned(), Json::Num(Num::PosInt(a.cycles))));
    es.push((Field::AccRunning.name().to_owned(), Json::Bool(a.running)));
    es.push((Field::AccRepeating.name().to_owned(), Json::Bool(a.repeating)));
    Json::Object(es)
}

fn accumulators_json(v: &Vec<(String, AccumulatorData)>) -> (r: Json)
    ensures
        encodes_accs(r, accs_view(v@)),
{
    let mut out: Vec<(String, Json)> = Vec::new();
    let mut i: usize = 0;
    while i < v.len()
        invariant
            i <= v.len(),
            out@.len() == i,
            forall|k: int| 0 <= k < i ==> {
                &&& (#[trigger] out@[k]).0@ == v@[k].0@
                &&& encodes_acc(out@[k].1, v@[k].1)
            },
        decreases v.len() - i,
    {
        out.push((v[i].0.clone(), accumulator_json(&v[i].1)));
        i = i + 1;
    }
    Json::Object(out)
}

/// Encodes a tick message as a JSON object with one entry per field, in
/// declaration order; decoding gives the message back.
pub fn encode_value(m: &TickMessage) -> (j: Json)
    requires
        m@.wf(),
    ensures
        encodes(m@, j),
        message_of(j) == Ok::<TickView, crate::tick::DecodeError>(m@),
{
    let mut es: Vec<(String, Json)> = Vec::new();
    es.push((Field::Id.name().to_owned(), str_json(&m.id)));
    es.push((Field::ShortId.name().to_owned(), str_json(&m.short_id)));
    es.push((Field::EventType.name().to_owned(), str_json(&m.event_type)));
    es.push((Field::Stamp.name().to_owned(), Json::Num(m.stamp)));
    es.push((Field::Interval.name().to_owned(), Json::Num(m.interval)));
    es.push((Field::Paused.name().to_owned(), Json::Bool(m.paused)));
    es.push((Field::Stepping.name().to_owned(), Json::Bool(m.stepping)));
    es.push((Field::StartTime.name().to_owned(), Json::Num(m.start_time)));
    es.push((Field::Namespace.name().to_owned(), str_json(&m.namespace)));
    es.push((Field::Backpressure.name().to_owned(), Json::Bool(m.backpressure)));
    es.push((Field::WallTime.name().to_owned(), ints_json(&m.wall_time)));
    es.push((Field::CurrentChoice.name().to_owned(), opt_json(&m.current_choice)));
    es.push((Field::Transport.name().to_owned(), strs_json(&m.transport)));
    es.push((Field::Disposition.name().to_owned(), opt_json(&m.disposition)));
    es.push((Field::Connected.name().to_owned(), Json::Bool(m.connected)));
    es.push((Field::Accumulators.name().to_owned(), accumulators_json(&m.accumulators)));
    let j = Json::Object(es);
    proof {
        lemma_round_trip(m@, j);
    }
    j
}

} // verus!
