//! Tick messages: their fields, and their decoding from a JSON tree.
use vstd::prelude::*;
use crate::json::{Json, Num, lookup, lookup_key, parse_json, parsed_json};

verus! {

/// A field of a tick message or of one of its accumulators.
#[derive(Clone, Copy, Debug, PartialEq, Eq, Structural)]
pub enum Field {
    Id,
    ShortId,
    EventType,
    Stamp,
    Interval,
    Paused,
    Stepping,
    StartTime,
    Namespace,
    Backpressure,
    WallTime,
    CurrentChoice,
    Transport,
    Disposition,
    Connected,
    Accumulators,
    AccInterval,
    AccElapsed,
    AccCycles,
    AccRunning,
    AccRepeating,
}

impl Field {
    /// The key under which the field stands in a JSON object.
    pub open spec fn key(self) -> Seq<char> {
        match self {
            Field::Id => "id"@,
            Field::ShortId => "short_id"@,
            Field::EventType => "event_type"@,
            Field::Stamp => "stamp"@,
            Field::Interval => "interval"@,
            Field::Paused => "paused"@,
            Field::Stepping => "stepping"@,
            Field::StartTime => "start_time"@,
            Field::Namespace => "namespace"@,
            Field::Backpressure => "backpressure"@,
            Field::WallTime => "wall_time"@,
            Field::CurrentChoice => "current_choice"@,
            Field::Transport => "transport"@,
            Field::Disposition => "disposition"@,
            Field::Connected => "connected"@,
            Field::Accumulators => "accumulators"@,
            Field::AccInterval => "interval"@,
            Field::AccElapsed => "elapsed"@,
            Field::AccCycles => "cycles"@,
            Field::AccRunning => "running"@,
            Field::AccRepeating => "repeating"@,
        }
    }

    /// The field's key, for lookups and for messages.
    pub fn name(&self) -> (r: &'static str)
        ensures
            r@ == self.key(),
    {
        match self {
            Field::Id => "id",
            Field::ShortId => "short_id",
            Field::EventType => "event_type",
            Field::Stamp => "stamp",
            Field::Interval => "interval",
            Field::Paused => "paused",
            Field::Stepping => "stepping",
            Field::StartTime => "start_time",
            Field::Namespace => "namespace",
            Field::Backpressure => "backpressure",
            Field::WallTime => "wall_time",
            Field::CurrentChoice => "current_choice",
            Field::Transport => "transport",
            Field::Disposition => "disposition",
            Field::Connected => "connected",
            Field::Accumulators => "accumulators",
            Field::AccInterval => "interval",
            Field::AccElapsed => "elapsed",
            Field::AccCycles => "cycles",
            Field::AccRunning => "running",
            Field::AccRepeating => "repeating",
        }
    }
}

/// Why a payload is not a tick message.
#[derive(Clone, Copy, Debug, PartialEq, Eq, Structural)]
pub enum DecodeError {
    /// The bytes are not JSON.
    Syntax,
    /// The payload is JSON but not an object.
    NotAnObject,
    /// Two accumulators share a name.
    RepeatedAccumulator,
    /// A required field is absent.
    Missing(Field),
    /// A field holds a value of the wrong type or out of range.
    WrongType(Field),
}


/// One accumulator of the publisher's clock.
#[derive(Clone, Copy, Debug, PartialEq, Eq, Structural)]
pub struct AccumulatorData {
    pub interval: Num,
    pub elapsed: Num,
    pub cycles: u64,
    pub running: bool,
    pub repeating: bool,
}

/// A tick event as published on the bus. Fields that hold a JSON number of
/// any kind keep it as the parser classified it.
#[derive(Debug)]
pub struct TickMessage {
    pub id: String,
    pub short_id: String,
    pub event_type: String,
    pub stamp: Num,
    pub interval: Num,
    pub paused: bool,
    pub stepping: bool,
    pub start_time: Num,
    pub namespace: String,
    pub backpressure: bool,
    pub wall_time: Vec<i32>,
    pub current_choice: Option<String>,
    pub transport: Vec<String>,
    pub disposition: Option<String>,
    pub connected: bool,
    pub accumulators: Vec<(String, AccumulatorData)>,
}

/// The mathematical content of a `TickMessage`.
pub struct TickView {
    pub id: Seq<char>,
    pub short_id: Seq<char>,
    pub event_type: Seq<char>,
    pub stamp: Num,
    pub interval: Num,
    pub paused: bool,
    pub stepping: bool,
    pub start_time: Num,
    pub namespace: Seq<char>,
    pub backpressure: bool,
    pub wall_time: Seq<i32>,
    pub current_choice: Option<Seq<char>>,
    pub transport: Seq<Seq<char>>,
    pub disposition: Option<Seq<char>>,
    pub connected: bool,
    pub accumulators: Seq<(Seq<char>, AccumulatorData)>,
}

pub open spec fn opt_view(o: Option<String>) -> Option<Seq<char>> {
    match o {
        Some(s) => Some(s@),
        None => None,
    }
}

pub open spec fn strings_view(v: Seq<String>) -> Seq<Seq<char>> {
    v.map_values(|s: String| s@)
}

pub open spec fn accs_view(v: Seq<(String, AccumulatorData)>) -> Seq<(Seq<char>, AccumulatorData)> {
    v.map_values(|p: (String, AccumulatorData)| (p.0@, p.1))
}

impl View for TickMessage {
    type V = TickView;

    open spec fn view(&self) -> TickView {
        TickView {
            id: self.id@,
            short_id: self.short_id@,
            event_type: self.event_type@,
            stamp: self.stamp,
            interval: self.interval,
            paused: self.paused,
            stepping: self.stepping,
            start_time: self.start_time,
            namespace: self.namespace@,
            backpressure: self.backpressure,
            wall_time: self.wall_time@,
            current_choice: opt_view(self.current_choice),
            transport: strings_view(self.transport@),
            disposition: opt_view(self.disposition),
            connected: self.connected,
            accumulators: accs_view(self.accumulators@),
        }
    }
}

pub open spec fn str_field(es: Seq<(String, Json)>, f: Field) -> Result<Seq<char>, DecodeError> {
    match lookup(es, f.key()) {
        Some(Json::Str(s)) => Ok(s@),
        Some(_) => Err(DecodeError::WrongType(f)),
        None => Err(DecodeError::Missing(f)),
    }
}

pub open spec fn bool_field(es: Seq<(String, Json)>, f: Field) -> Result<bool, DecodeError> {
    match lookup(es, f.key()) {
        Some(Json::Bool(b)) => Ok(b),
        Some(_) => Err(DecodeError::WrongType(f)),
        None => Err(DecodeError::Missing(f)),
    }
}

/// A field that takes any JSON number.
pub open spec fn num_field(es: Seq<(String, Json)>, f: Field) -> Result<Num, DecodeError> {
    match lookup(es, f.key()) {
        Some(Json::Num(n)) => Ok(n),
        Some(_) => Err(DecodeError::WrongType(f)),
        None => Err(DecodeError::Missing(f)),
    }
}

/// A field that takes a non-negative integer.
pub open spec fn u64_field(es: Seq<(String, Json)>, f: Field) -> Result<u64, DecodeError> {
    match lookup(es, f.key()) {
        Some(Json::Num(Num::PosInt(u))) => Ok(u),
        Some(_) => Err(DecodeError::WrongType(f)),
        None => Err(DecodeError::Missing(f)),
    }
}

/// An optional string: absent and `null` both give `None`.
pub open spec fn opt_str_field(es: Seq<(String, Json)>, f: Field) -> Result<Option<Seq<char>>, DecodeError> {
    match lookup(es, f.key()) {
        Some(Json::Str(s)) => Ok(Some(s@)),
        Some(Json::Null) => Ok(None),
        Some(_) => Err(DecodeError::WrongType(f)),
        None => Ok(None),
    }
}

/// The value of a JSON integer that fits in an `i32`.
pub open spec fn int_of(j: Json) -> Option<i32> {
    match j {
        Json::Num(Num::PosInt(u)) => if u <= i32::MAX { Some(u as i32) } else { None },
        Json::Num(Num::NegInt(i)) => if i32::MIN <= i <= i32::MAX { Some(i as i32) } else { None },
        _ => None,
    }
}

pub open spec fn int_items(items: Seq<Json>) -> Option<Seq<i32>> {
    if forall|i: int| 0 <= i < items.len() ==> (#[trigger] int_of(items[i])) is Some {
        Some(Seq::new(items.len(), |i: int| int_of(items[i])->Some_0))
    } else {
        None
    }
}

pub open spec fn str_items(items: Seq<Json>) -> Option<Seq<Seq<char>>> {
    if forall|i: int| 0 <= i < items.len() ==> (#[trigger] items[i]) is Str {
        Some(Seq::new(items.len(), |i: int| items[i]->Str_0@))
    } else {
        None
    }
}

pub open spec fn ints_field(es: Seq<(String, Json)>, f: Field) -> Result<Seq<i32>, DecodeError> {
    match lookup(es, f.key()) {
        Some(Json::Array(a)) => match int_items(a@) {
            Some(s) => Ok(s),
            None => Err(DecodeError::WrongType(f)),
        },
        Some(_) => Err(DecodeError::WrongType(f)),
        None => Err(DecodeError::Missing(f)),
    }
}

pub open spec fn strs_field(es: Seq<(String, Json)>, f: Field) -> Result<Seq<Seq<char>>, DecodeError> {
    match lookup(es, f.key()) {
        Some(Json::Array(a)) => match str_items(a@) {
            Some(s) => Ok(s),
            None => Err(DecodeError::WrongType(f)),
        },
        Some(_) => Err(DecodeError::WrongType(f)),
        None => Err(DecodeError::Missing(f)),
    }
}

/// Decoding of one accumulator; fields are checked in declaration order.
pub open spec fn accumulator_of(j: Json) -> Result<AccumulatorData, DecodeError> {
    match j {
        Json::Object(es) => {
            let interval = num_field(es@, Field::AccInterval);
            let elapsed = num_field(es@, Field::AccElapsed);
            let cycles = u64_field(es@, Field::AccCycles);
            let running = bool_field(es@, Field::AccRunning);
            let repeating = bool_field(es@, Field::AccRepeating);
            if interval is Err {
                Err(interval->Err_0)
            } else if elapsed is Err {
                Err(elapsed->Err_0)
            } else if cycles is Err {
                Err(cycles->Err_0)
            } else if running is Err {
                Err(running->Err_0)
            } else if repeating is Err {
                Err(repeating->Err_0)
            } else {
                Ok(AccumulatorData {
                    interval: interval->Ok_0,
                    elapsed: elapsed->Ok_0,
                    cycles: cycles->Ok_0,
                    running: running->Ok_0,
                    repeating: repeating->Ok_0,
                })
            }
        },
        _ => Err(DecodeError::WrongType(Field::Accumulators)),
    }
}

/// Some accumulator in `p` is named `k`.
pub open spec fn names_contain(p: Seq<(Seq<char>, AccumulatorData)>, k: Seq<char>) -> bool {
    exists|i: int| 0 <= i < p.len() && p[i].0 == k
}

/// No two accumulators in `p` share a name.
pub open spec fn names_unique(p: Seq<(Seq<char>, AccumulatorData)>) -> bool {
    forall|i: int, j: int| 0 <= i < j < p.len() ==> p[i].0 != p[j].0
}

impl TickView {
    /// Accumulators are keyed by name: no name occurs twice.
    pub open spec fn wf(self) -> bool {
        names_unique(self.accumulators)
    }
}

/// Every list of accumulators that decodes has distinct names.
pub proof fn lemma_accumulator_names_unique(es: Seq<(String, Json)>)
    ensures
        accumulator_items(es) matches Ok(p) ==> names_unique(p),
    decreases es.len(),
{
    if es.len() > 0 {
        lemma_accumulator_names_unique(es.drop_last());
        if let Ok(p) = accumulator_items(es) {
            let q = accumulator_items(es.drop_last())->Ok_0;
            assert(p == q.push((es.last().0@, accumulator_of(es.last().1)->Ok_0)));
            assert forall|i: int, j: int| 0 <= i < j < p.len() implies p[i].0 != p[j].0 by {
                if j == p.len() - 1 {
                    assert(p[i] == q[i]);
                    assert(!names_contain(q, es.last().0@));
                } else {
                    assert(p[i] == q[i] && p[j] == q[j]);
                }
            }
        }
    }
}

/// Decoding of the accumulators' entries, in order; the first failing entry
/// gives the error.
pub open spec fn accumulator_items(es: Seq<(String, Json)>) -> Result<Seq<(Seq<char>, AccumulatorData)>, DecodeError>
    decreases es.len(),
{
    if es.len() == 0 {
        Ok(Seq::empty())
    } else {
        match accumulator_items(es.drop_last()) {
            Err(e) => Err(e),
            Ok(p) => match accumulator_of(es.last().1) {
                Err(e) => Err(e),
                Ok(a) => if names_contain(p, es.last().0@) {
                    Err(DecodeError::RepeatedAccumulator)
                } else {
                    Ok(p.push((es.last().0@, a)))
                },
            },
        }
    }
}

pub open spec fn accs_field(es: Seq<(String, Json)>, f: Field) -> Result<Seq<(Seq<char>, AccumulatorData)>, DecodeError> {
    match lookup(es, f.key()) {
        Some(Json::Object(m)) => accumulator_items(m@),
        Some(_) => Err(DecodeError::WrongType(f)),
        None => Err(DecodeError::Missing(f)),
    }
}


/// Decoding of a tick message's object; fields are checked in declaration
/// order, and keys that are not fields are ignored.
pub open spec fn object_message(es: Seq<(String, Json)>) -> Result<TickView, DecodeError> {
    let id = str_field(es, Field::Id);
    let short_id = str_field(es, Field::ShortId);
    let event_type = str_field(es, Field::EventType);
    let stamp = num_field(es, Field::Stamp);
    let interval = num_field(es, Field::Interval);
    let paused = bool_field(es, Field::Paused);
    let stepping = bool_field(es, Field::Stepping);
    let start_time = num_field(es, Field::StartTime);
    let namespace = str_field(es, Field::Namespace);
    let backpressure = bool_field(es, Field::Backpressure);
    let wall_time = ints_field(es, Field::WallTime);
    let current_choice = opt_str_field(es, Field::CurrentChoice);
    let transport = strs_field(es, Field::Transport);
    let disposition = opt_str_field(es, Field::Disposition);
    let connected = bool_field(es, Field::Connected);
    let accumulators = accs_field(es, Field::Accumulators);
    if id is Err {
        Err(id->Err_0)
    } else if short_id is Err {
        Err(short_id->Err_0)
    } else if event_type is Err {
        Err(event_type->Err_0)
    } else if stamp is Err {
        Err(stamp->Err_0)
    } else if interval is Err {
        Err(interval->Err_0)
    } else if paused is Err {
        Err(paused->Err_0)
    } else if stepping is Err {
        Err(stepping->Err_0)
    } else if start_time is Err {
        Err(start_time->Err_0)
    } else if namespace is Err {
        Err(namespace->Err_0)
    } else if backpressure is Err {
        Err(backpressure->Err_0)
    } else if wall_time is Err {
        Err(wall_time->Err_0)
    } else if current_choice is Err {
        Err(current_choice->Err_0)
    } else if transport is Err {
        Err(transport->Err_0)
    } else if disposition is Err {
        Err(disposition->Err_0)
    } else if connected is Err {
        Err(connected->Err_0)
    } else if accumulators is Err {
        Err(accumulators->Err_0)
    } else {
        Ok(TickView {
            id: id->Ok_0,
            short_id: short_id->Ok_0,
            event_type: event_type->Ok_0,
            stamp: stamp->Ok_0,
            interval: interval->Ok_0,
            paused: paused->Ok_0,
            stepping: stepping->Ok_0,
            start_time: start_time->Ok_0,
            namespace: namespace->Ok_0,
            backpressure: backpressure->Ok_0,
            wall_time: wall_time->Ok_0,
            current_choice: current_choice->Ok_0,
            transport: transport->Ok_0,
            disposition: disposition->Ok_0,
            connected: connected->Ok_0,
            accumulators: accumulators->Ok_0,
        })
    }
}

/// What a JSON tree decodes to.
pub open spec fn message_of(j: Json) -> Result<TickView, DecodeError> {
    match j {
        Json::Object(es) => object_message(es@),
        _ => Err(DecodeError::NotAnObject),
    }
}

/// What a payload decodes to.
pub open spec fn decoded(b: Seq<u8>) -> Result<TickView, DecodeError> {
    match parsed_json(b) {
        Some(j) => message_of(j),
        None => Err(DecodeError::Syntax),
    }
}

fn get_str(es: &Vec<(String, Json)>, f: Field) -> (r: Result<String, DecodeError>)
    ensures
        match str_field(es@, f) {
            Ok(s) => r is Ok && r->Ok_0@ == s,
            Err(e) => r == Err::<String, DecodeError>(e),
        },
{
    match lookup_key(es, f.name()) {
        Some(Json::Str(s)) => Ok(s.clone()),
        Some(_) => Err(DecodeError::WrongType(f)),
        None => Err(DecodeError::Missing(f)),
    }
}

fn get_bool(es: &Vec<(String, Json)>, f: Field) -> (r: Result<bool, DecodeError>)
    ensures
        r == bool_field(es@, f),
{
    match lookup_key(es, f.name()) {
        Some(Json::Bool(b)) => Ok(*b),
        Some(_) => Err(DecodeError::WrongType(f)),
        None => Err(DecodeError::Missing(f)),
    }
}

fn get_num(es: &Vec<(String, Json)>, f: Field) -> (r: Result<Num, DecodeError>)
    ensures
        r == num_field(es@, f),
{
    match lookup_key(es, f.name()) {
        Some(Json::Num(n)) => Ok(*n),
        Some(_) => Err(DecodeError::WrongType(f)),
        None => Err(DecodeError::Missing(f)),
    }
}

fn get_u64(es: &Vec<(String, Json)>, f: Field) -> (r: Result<u64, DecodeError>)
    ensures
        r == u64_field(es@, f),
{
    match lookup_key(es, f.name()) {
        Some(Json::Num(Num::PosInt(u))) => Ok(*u),
        Some(_) => Err(DecodeError::WrongType(f)),
        None => Err(DecodeError::Missing(f)),
    }
}

fn get_opt_str(es: &Vec<(String, Json)>, f: Field) -> (r: Result<Option<String>, DecodeError>)
    ensures
        match opt_str_field(es@, f) {
            Ok(o) => r is Ok && opt_view(r->Ok_0) == o,
            Err(e) => r == Err::<Option<String>, DecodeError>(e),
        },
{
    match lookup_key(es, f.name()) {
        Some(Json::Str(s)) => Ok(Some(s.clone())),
        Some(Json::Null) => Ok(None),
        Some(_) => Err(DecodeError::WrongType(f)),
        None => Ok(None),
    }
}

fn int_value(j: &Json) -> (r: Option<i32>)
    ensures
        r == int_of(*j),
{
    match j {
        Json::Num(Num::PosInt(u)) => if *u <= 2147483647 { Some(*u as i32) } else { None },
        Json::Num(Num::NegInt(i)) => if -2147483648 <= *i && *i <= 2147483647 { Some(*i as i32) } else { None },
        _ => None,
    }
}

fn get_ints(es: &Vec<(String, Json)>, f: Field) -> (r: Result<Vec<i32>, DecodeError>)
    ensures
        match ints_field(es@, f) {
            Ok(s) => r is Ok && r->Ok_0@ == s,
            Err(e) => r == Err::<Vec<i32>, DecodeError>(e),
        },
{
    match lookup_key(es, f.name()) {
        Some(Json::Array(a)) => {
            let mut out: Vec<i32> = Vec::new();
            let mut i: usize = 0;
            while i < a.len()
                invariant
                    i <= a.len(),
                    out@.len() == i,
                    lookup(es@, f.key()) == Some(Json::Array(*a)),
                    forall|k: int| 0 <= k < i ==> (#[trigger] int_of(a@[k])) is Some && out@[k] == int_of(a@[k])->Some_0,
                decreases a.len() - i,
            {
                match int_value(&a[i]) {
                    Some(x) => out.push(x),
                    None => {
                        assert(!(int_of(a@[i as int]) is Some));
                        assert(int_items(a@) is None);
                        return Err(DecodeError::WrongType(f));
                    },
                }
                i = i + 1;
            }
            assert(out@ =~= Seq::new(a@.len(), |k: int| int_of(a@[k])->Some_0));
            Ok(out)
        },
        Some(_) => Err(DecodeError::WrongType(f)),
        None => Err(DecodeError::Missing(f)),
    }
}

fn get_strs(es: &Vec<(String, Json)>, f: Field) -> (r: Result<Vec<String>, DecodeError>)
    ensures
        match strs_field(es@, f) {
            Ok(s) => r is Ok && strings_view(r->Ok_0@) == s,
            Err(e) => r == Err::<Vec<String>, DecodeError>(e),
        },
{
    match lookup_key(es, f.name()) {
        Some(Json::Array(a)) => {
            let mut out: Vec<String> = Vec::new();
            let mut i: usize = 0;
            while i < a.len()
                invariant
                    i <= a.len(),
                    out@.len() == i,
                    lookup(es@, f.key()) == Some(Json::Array(*a)),
                    forall|k: int| 0 <= k < i ==> (#[trigger] a@[k]) is Str && out@[k]@ == a@[k]->Str_0@,
                decreases a.len() - i,
            {
                match &a[i] {
                    Json::Str(s) => out.push(s.clone()),
                    _ => {
                        assert(!(a@[i as int] is Str));
                        assert(str_items(a@) is None);
                        return Err(DecodeError::WrongType(f));
                    },
                }
                i = i + 1;
            }
            assert(strings_view(out@) =~= Seq::new(a@.len(), |k: int| a@[k]->Str_0@));
            Ok(out)
        },
        Some(_) => Err(DecodeError::WrongType(f)),
        None => Err(DecodeError::Missing(f)),
    }
}


fn decode_accumulator(j: &Json) -> (r: Result<AccumulatorData, DecodeError>)
    ensures
        r == accumulator_of(*j),
{
    match j {
        Json::Object(es) => {
            let interval = match get_num(es, Field::AccInterval) { Ok(v) => v, Err(e) => return Err(e) };
            let elapsed = match get_num(es, Field::AccElapsed) { Ok(v) => v, Err(e) => return Err(e) };
            let cycles = match get_u64(es, Field::AccCycles) { Ok(v) => v, Err(e) => return Err(e) };
            let running = match get_bool(es, Field::AccRunning) { Ok(v) => v, Err(e) => return Err(e) };
            let repeating = match get_bool(es, Field::AccRepeating) { Ok(v) => v, Err(e) => return Err(e) };
            Ok(AccumulatorData { interval, elapsed, cycles, running, repeating })
        },
        _ => Err(DecodeError::WrongType(Field::Accumulators)),
    }
}

/// Once a prefix of the entries fails, every longer prefix fails the same way.
proof fn lemma_accumulator_error_stays(es: Seq<(String, Json)>, k: int, n: int)
    requires
        0 <= k <= n <= es.len(),
        accumulator_items(es.take(k)) is Err,
    ensures
        accumulator_items(es.take(n)) == accumulator_items(es.take(k)),
    decreases n - k,
{
    if k < n {
        assert(es.take(k + 1).drop_last() =~= es.take(k));
        lemma_accumulator_error_stays(es, k + 1, n);
    }
}

fn has_name(out: &Vec<(String, AccumulatorData)>, name: &String) -> (r: bool)
    ensures
        r == names_contain(accs_view(out@), name@),
{
    let mut k: usize = 0;
    while k < out.len()
        invariant
            k <= out.len(),
            forall|x: int| 0 <= x < k ==> accs_view(out@)[x].0 != name@,
        decreases out.len() - k,
    {
        if out[k].0 == *name {
            assert(accs_view(out@)[k as int].0 == name@);
            return true;
        }
        k = k + 1;
    }
    false
}

fn get_accumulators(es: &Vec<(String, Json)>, f: Field) -> (r: Result<Vec<(String, AccumulatorData)>, DecodeError>)
    ensures
        match accs_field(es@, f) {
            Ok(s) => r is Ok && accs_view(r->Ok_0@) == s,
            Err(e) => r == Err::<Vec<(String, AccumulatorData)>, DecodeError>(e),
        },
{
    match lookup_key(es, f.name()) {
        Some(Json::Object(m)) => {
            let mut out: Vec<(String, AccumulatorData)> = Vec::new();
            let mut i: usize = 0;
            assert(m@.take(0) =~= Seq::<(String, Json)>::empty());
            assert(accs_view(out@) =~= Seq::<(Seq<char>, AccumulatorData)>::empty());
            while i < m.len()
                invariant
                    i <= m.len(),
                    lookup(es@, f.key()) == Some(Json::Object(*m)),
                    accs_view(out@).len() == out@.len(),
                    accumulator_items(m@.take(i as int)) == Ok::<Seq<(Seq<char>, AccumulatorData)>, DecodeError>(accs_view(out@)),
                decreases m.len() - i,
            {
                assert(m@.take(i as int + 1).drop_last() =~= m@.take(i as int));
                match decode_accumulator(&m[i].1) {
                    Ok(a) => {
                        if has_name(&out, &m[i].0) {
                            proof {
                                lemma_accumulator_error_stays(m@, i as int + 1, m@.len() as int);
                                assert(m@.take(m@.len() as int) =~= m@);
                            }
                            return Err(DecodeError::RepeatedAccumulator);
                        }
                        let ghost before = out@;
                        out.push((m[i].0.clone(), a));
                        assert(accs_view(out@) =~= accs_view(before).push((m@[i as int].0@, a)));
                    },
                    Err(e) => {
                        proof {
                            lemma_accumulator_error_stays(m@, i as int + 1, m@.len() as int);
                            assert(m@.take(m@.len() as int) =~= m@);
                        }
                        return Err(e);
                    },
                }
                i = i + 1;
            }
            assert(m@.take(m@.len() as int) =~= m@);
            Ok(out)
        },
        Some(_) => Err(DecodeError::WrongType(f)),
        None => Err(DecodeError::Missing(f)),
    }
}

/// Decodes a JSON tree into a tick message.
pub fn decode_value(j: &Json) -> (r: Result<TickMessage, DecodeError>)
    ensures
        match message_of(*j) {
            Ok(v) => r is Ok && r->Ok_0@ == v,
            Err(e) => r == Err::<TickMessage, DecodeError>(e),
        },
        r matches Ok(m) ==> m@.wf(),
{
    let es = match j {
        Json::Object(es) => es,
        _ => return Err(DecodeError::NotAnObject),
    };
    let id = match get_str(es, Field::Id) { Ok(v) => v, Err(e) => return Err(e) };
    let short_id = match get_str(es, Field::ShortId) { Ok(v) => v, Err(e) => return Err(e) };
    let event_type = match get_str(es, Field::EventType) { Ok(v) => v, Err(e) => return Err(e) };
    let stamp = match get_num(es, Field::Stamp) { Ok(v) => v, Err(e) => return Err(e) };
    let interval = match get_num(es, Field::Interval) { Ok(v) => v, Err(e) => return Err(e) };
    let paused = match get_bool(es, Field::Paused) { Ok(v) => v, Err(e) => return Err(e) };
    let stepping = match get_bool(es, Field::Stepping) { Ok(v) => v, Err(e) => return Err(e) };
    let start_time = match get_num(es, Field::StartTime) { Ok(v) => v, Err(e) => return Err(e) };
    let namespace = match get_str(es, Field::Namespace) { Ok(v) => v, Err(e) => return Err(e) };
    let backpressure = match get_bool(es, Field::Backpressure) { Ok(v) => v, Err(e) => return Err(e) };
    let wall_time = match get_ints(es, Field::WallTime) { Ok(v) => v, Err(e) => return Err(e) };
    let current_choice = match get_opt_str(es, Field::CurrentChoice) { Ok(v) => v, Err(e) => return Err(e) };
    let transport = match get_strs(es, Field::Transport) { Ok(v) => v, Err(e) => return Err(e) };
    let disposition = match get_opt_str(es, Field::Disposition) { Ok(v) => v, Err(e) => return Err(e) };
    let connected = match get_bool(es, Field::Connected) { Ok(v) => v, Err(e) => return Err(e) };
    let accumulators = match get_accumulators(es, Field::Accumulators) { Ok(v) => v, Err(e) => return Err(e) };
    proof {
        if let Some(Json::Object(m)) = lookup(es@, Field::Accumulators.key()) {
            lemma_accumulator_names_unique(m@);
        }
    }
    Ok(TickMessage {
        id,
        short_id,
        event_type,
        stamp,
        interval,
        paused,
        stepping,
        start_time,
        namespace,
        backpressure,
        wall_time,
        current_choice,
        transport,
        disposition,
        connected,
        accumulators,
    })
}

/// Decodes a payload into a tick message. The outcome depends on the bytes
/// alone, and no message is returned unless every field decodes.
pub fn decode(payload: &[u8]) -> (r: Result<TickMessage, DecodeError>)
    ensures
        match decoded(payload@) {
            Ok(v) => r is Ok && r->Ok_0@ == v,
            Err(e) => r == Err::<TickMessage, DecodeError>(e),
        },
        r matches Ok(m) ==> m@.wf(),
{
    match parse_json(payload) {
        Some(j) => decode_value(&j),
        None => Err(DecodeError::Syntax),
    }
}


impl Field {
    /// A field of the message itself that may not be absent (all but the two
    /// optional labels).
    pub open spec fn is_required(self) -> bool {
        match self {
            Field::CurrentChoice | Field::Disposition => false,
            Field::AccInterval | Field::AccElapsed | Field::AccCycles => false,
            Field::AccRunning | Field::AccRepeating => false,
            _ => true,
        }
    }
}

impl Field {
    /// A field of an accumulator; each of them is required there.
    pub open spec fn is_accumulator_field(self) -> bool {
        match self {
            Field::AccInterval | Field::AccElapsed | Field::AccCycles => true,
            Field::AccRunning | Field::AccRepeating => true,
            _ => false,
        }
    }
}

/// The `i`-th accumulator of the object `es` is an object without key `f`.
pub open spec fn accumulator_lacks(es: Seq<(String, Json)>, i: int, f: Field) -> bool {
    match lookup(es, Field::Accumulators.key()) {
        Some(Json::Object(m)) => 0 <= i < m@.len() && match m@[i].1 {
            Json::Object(fs) => lookup(fs@, f.key()) is None,
            _ => false,
        },
        _ => false,
    }
}

/// One accumulator that does not decode makes the whole list fail.
proof fn lemma_bad_accumulator_fails(es: Seq<(String, Json)>, i: int)
    requires
        0 <= i < es.len(),
        accumulator_of(es[i].1) is Err,
    ensures
        accumulator_items(es) is Err,
    decreases es.len(),
{
    if i < es.len() - 1 {
        assert(es.drop_last()[i] == es[i]);
        lemma_bad_accumulator_fails(es.drop_last(), i);
    }
}

/// A payload in which one accumulator lacks one of its fields does not
/// decode, and no message comes out of it.
pub proof fn lemma_missing_accumulator_field_rejected(b: Seq<u8>, i: int, f: Field)
    requires
        parsed_json(b) matches Some(Json::Object(es)) && accumulator_lacks(es@, i, f),
        f.is_accumulator_field(),
    ensures
        decoded(b) is Err,
{
    let es = parsed_json(b)->Some_0->Object_0;
    let m = lookup(es@, Field::Accumulators.key())->Some_0->Object_0;
    lemma_bad_accumulator_fails(m@, i);
}

/// A payload whose object lacks a required field does not decode, and no
/// message comes out of it.
pub proof fn lemma_missing_field_rejected(b: Seq<u8>, f: Field)
    requires
        parsed_json(b) matches Some(Json::Object(es)) && lookup(es@, f.key()) is None,
        f.is_required(),
    ensures
        decoded(b) is Err,
{
}

} // verus!
