//! Decoding of a node's health report.
//!
//! A probe issues one HTTP GET against the liveness or full-health path
//! and receives a JSON document: per named subsystem check an optional
//! error text, a timestamp, a duration, a contiguous-failure counter and
//! an optional first-failure timestamp, plus an overall healthy flag.
//! The JSON text is parsed by serde_json behind trusted declarations;
//! reading the report out of the parsed document is verified here.

use vstd::prelude::*;

verus! {

/// The health path under a node's base URL, full or liveness-only.
pub fn health_url_path(liveness: bool) -> (r: &'static str)
    ensures
        liveness ==> r@ == "ext/health/liveness"@,
        !liveness ==> r@ == "ext/health"@,
{
    if liveness {
        "ext/health/liveness"
    } else {
        "ext/health"
    }
}

#[verifier::external_type_specification]
#[verifier::external_body]
pub struct ExValue(serde_json::Value);

/// What serde_json parses a text into, when the text is valid JSON.
pub uninterp spec fn json_of(s: Seq<char>) -> Option<serde_json::Value>;

/// The member of a JSON object under a name, if the value is an object
/// with that member.
pub uninterp spec fn json_field(v: serde_json::Value, name: Seq<char>) -> Option<serde_json::Value>;

/// The boolean a JSON value holds, if it is a boolean.
pub uninterp spec fn json_bool(v: serde_json::Value) -> Option<bool>;

/// The integer a JSON value holds, if it is an integer representable as
/// an `i64`.
pub uninterp spec fn json_int(v: serde_json::Value) -> Option<i64>;

/// The characters of a JSON value, if it is a string.
pub uninterp spec fn json_str(v: serde_json::Value) -> Option<Seq<char>>;

/// Whether a JSON value is `null`.
pub uninterp spec fn json_is_null(v: serde_json::Value) -> bool;

/// The members of a JSON object in serde_json's order (sorted by name),
/// if the value is an object.
pub uninterp spec fn json_entries(v: serde_json::Value) -> Option<
    Seq<(Seq<char>, serde_json::Value)>,
>;

/// The instant an RFC 3339 timestamp denotes, as seconds since the Unix
/// epoch plus subsecond nanoseconds, if the text is such a timestamp.
pub uninterp spec fn rfc3339_epoch(s: Seq<char>) -> Option<(i64, u32)>;

/// Relies on serde_json's `from_str` for `Value`: parses valid JSON
/// text into its document, and nothing else.
#[verifier::external_body]
fn parse_json(s: &str) -> (r: Option<serde_json::Value>)
    ensures
        r == json_of(s@),
{
    serde_json::from_str(s).ok()
}

/// Relies on serde_json's `Value::get`: the member of an object under
/// the given name.
#[verifier::external_body]
fn get_field<'a>(v: &'a serde_json::Value, name: &str) -> (r: Option<&'a serde_json::Value>)
    ensures
        match r {
            Some(f) => json_field(*v, name@) == Some(*f),
            None => json_field(*v, name@) is None,
        },
{
    v.get(name)
}

/// Relies on serde_json's `Value::as_bool`.
#[verifier::external_body]
fn as_bool(v: &serde_json::Value) -> (r: Option<bool>)
    ensures
        r == json_bool(*v),
{
    v.as_bool()
}

/// Relies on serde_json's `Value::as_i64`.
#[verifier::external_body]
fn as_i64(v: &serde_json::Value) -> (r: Option<i64>)
    ensures
        r == json_int(*v),
{
    v.as_i64()
}

/// Relies on serde_json's `Value::as_str`.
#[verifier::external_body]
fn as_string(v: &serde_json::Value) -> (r: Option<String>)
    ensures
        match r {
            Some(s) => json_str(*v) == Some(s@),
            None => json_str(*v) is None,
        },
{
    v.as_str().map(|s| s.to_string())
}

/// Relies on serde_json's `Value::is_null`.
#[verifier::external_body]
fn is_null(v: &serde_json::Value) -> (r: bool)
    ensures
        r == json_is_null(*v),
{
    v.is_null()
}

/// Relies on serde_json's `Value::as_object` and `Value::clone` (a deep
/// copy), and on the map's iteration order, which is sorted by name.
#[verifier::external_body]
fn object_entries(v: &serde_json::Value) -> (r: Option<Vec<(String, serde_json::Value)>>)
    ensures
        match r {
            Some(es) => json_entries(*v) matches Some(ms) && ms.len() == es@.len() && (forall|
                i: int,
            |
                0 <= i < ms.len() ==> (#[trigger] ms[i]).0 == es@[i].0@ && ms[i].1 == es@[i].1),
            None => json_entries(*v) is None,
        },
{
    v.as_object().map(|m| m.iter().map(|kv| (kv.0.clone(), kv.1.clone())).collect())
}

/// Relies on chrono's `DateTime::parse_from_rfc3339`, `timestamp` and
/// `timestamp_subsec_nanos`: the parsed instant depends on the text
/// alone.
#[verifier::external_body]
fn parse_rfc3339(s: &str) -> (r: Option<(i64, u32)>)
    ensures
        r == rfc3339_epoch(s@),
{
    match chrono::DateTime::parse_from_rfc3339(s) {
        Ok(dt) => Some((dt.timestamp(), dt.timestamp_subsec_nanos())),
        Err(_) => None,
    }
}

/// The report could not be decoded: malformed JSON, a field of the
/// wrong type, or an unparsable timestamp.
#[derive(Debug, Clone, Copy, PartialEq, Eq, Structural)]
pub struct JsonDecodeError;

/// An instant: seconds since the Unix epoch, plus subsecond nanoseconds.
#[derive(Debug, Clone, Copy, PartialEq, Eq, Structural)]
pub struct UtcTimestamp {
    pub seconds: i64,
    pub nanos: u32,
}

/// One subsystem's check in a health report.
#[derive(Debug, PartialEq, Clone)]
pub struct CheckResult {
    /// Error text, when the check is failing.
    pub error: Option<String>,
    /// When the check last ran.
    pub timestamp: UtcTimestamp,
    /// How long it took, in nanoseconds.
    pub duration: Option<i64>,
    /// How many times in a row it has failed.
    pub contiguous_failures: Option<i64>,
    /// When it first started failing, if it is failing.
    pub time_of_first_failure: Option<UtcTimestamp>,
}

/// The mathematical contents of a [`CheckResult`].
pub struct CheckResultView {
    pub error: Option<Seq<char>>,
    pub timestamp: UtcTimestamp,
    pub duration: Option<i64>,
    pub contiguous_failures: Option<i64>,
    pub time_of_first_failure: Option<UtcTimestamp>,
}

impl View for CheckResult {
    type V = CheckResultView;

    open spec fn view(&self) -> CheckResultView {
        CheckResultView {
            error: match self.error {
                Some(s) => Some(s@),
                None => None,
            },
            timestamp: self.timestamp,
            duration: self.duration,
            contiguous_failures: self.contiguous_failures,
            time_of_first_failure: self.time_of_first_failure,
        }
    }
}

/// A node's health report: the named subsystem checks and the overall
/// flag.
#[derive(Debug, PartialEq, Clone)]
pub struct Response {
    pub checks: Option<Vec<(String, CheckResult)>>,
    pub healthy: Option<bool>,
}

/// The mathematical contents of a [`Response`].
pub struct ResponseView {
    pub checks: Option<Seq<(Seq<char>, CheckResultView)>>,
    pub healthy: Option<bool>,
}

impl View for Response {
    type V = ResponseView;

    open spec fn view(&self) -> ResponseView {
        ResponseView {
            checks: match self.checks {
                Some(v) => Some(checks_view(v@)),
                None => None,
            },
            healthy: self.healthy,
        }
    }
}

/// The view of a list of named checks.
pub open spec fn checks_view(v: Seq<(String, CheckResult)>) -> Seq<(Seq<char>, CheckResultView)> {
    Seq::new(v.len(), |i: int| (v[i].0@, v[i].1@))
}

/// The check a JSON object describes, or `None` when a present field
/// has the wrong type or a timestamp does not parse.
pub open spec fn spec_check_of(v: serde_json::Value) -> Option<CheckResultView> {
    let err: Option<Option<Seq<char>>> = match json_field(v, "error"@) {
        None => Some(None),
        Some(e) => if json_is_null(e) {
            Some(None)
        } else {
            match json_str(e) {
                Some(s) => Some(Some(s)),
                None => None,
            }
        },
    };
    let stamp: Option<(i64, u32)> = match json_field(v, "timestamp"@) {
        None => None,
        Some(t) => match json_str(t) {
            None => None,
            Some(ts) => rfc3339_epoch(ts),
        },
    };
    let dur: Option<Option<i64>> = match json_field(v, "duration"@) {
        None => Some(None),
        Some(d) => match json_int(d) {
            Some(n) => Some(Some(n)),
            None => None,
        },
    };
    let fails: Option<Option<i64>> = match json_field(v, "contiguousFailures"@) {
        None => Some(None),
        Some(d) => match json_int(d) {
            Some(n) => Some(Some(n)),
            None => None,
        },
    };
    let first: Option<Option<UtcTimestamp>> = match json_field(v, "timeOfFirstFailure"@) {
        None => Some(None),
        Some(t) => if json_is_null(t) {
            Some(None)
        } else {
            match json_str(t) {
                None => None,
                Some(ts) => match rfc3339_epoch(ts) {
                    None => None,
                    Some(e) => Some(Some(UtcTimestamp { seconds: e.0, nanos: e.1 })),
                },
            }
        },
    };
    if err is Some && stamp is Some && dur is Some && fails is Some && first is Some {
        Some(
            CheckResultView {
                error: err.unwrap(),
                timestamp: UtcTimestamp { seconds: stamp.unwrap().0, nanos: stamp.unwrap().1 },
                duration: dur.unwrap(),
                contiguous_failures: fails.unwrap(),
                time_of_first_failure: first.unwrap(),
            },
        )
    } else {
        None
    }
}

/// The checks a member list describes, in order; `None` as soon as one
/// member does not describe a check.
pub open spec fn spec_checks_of(ms: Seq<(Seq<char>, serde_json::Value)>) -> Option<
    Seq<(Seq<char>, CheckResultView)>,
>
    decreases ms.len(),
{
    if ms.len() == 0 {
        Some(Seq::<(Seq<char>, CheckResultView)>::empty())
    } else {
        match spec_check_of(ms[0].1) {
            None => None,
            Some(cv) => match spec_checks_of(ms.skip(1)) {
                None => None,
                Some(t) => Some(seq![(ms[0].0, cv)] + t),
            },
        }
    }
}

/// The report a text describes: `None` on malformed JSON, a wrong type
/// anywhere, or an unparsable timestamp.  Absent or null `checks` and
/// `healthy` members are simply absent in the report.
pub open spec fn spec_response_of(s: Seq<char>) -> Option<ResponseView> {
    match json_of(s) {
        None => None,
        Some(v) => {
            let healthy: Option<Option<bool>> = match json_field(v, "healthy"@) {
                None => Some(None),
                Some(h) => if json_is_null(h) {
                    Some(None)
                } else {
                    match json_bool(h) {
                        Some(b) => Some(Some(b)),
                        None => None,
                    }
                },
            };
            let checks: Option<Option<Seq<(Seq<char>, CheckResultView)>>> = match json_field(v, "checks"@) {
                None => Some(None),
                Some(c) => if json_is_null(c) {
                    Some(None)
                } else {
                    match json_entries(c) {
                        None => None,
                        Some(ms) => match spec_checks_of(ms) {
                            None => None,
                            Some(cs) => Some(Some(cs)),
                        },
                    }
                },
            };
            if healthy is Some && checks is Some {
                Some(ResponseView { checks: checks.unwrap(), healthy: healthy.unwrap() })
            } else {
                None
            }
        },
    }
}

fn parse_check(v: &serde_json::Value) -> (r: Result<CheckResult, JsonDecodeError>)
    ensures
        match r {
            Ok(c) => spec_check_of(*v) == Some(c@),
            Err(_) => spec_check_of(*v) is None,
        },
{
    let error = match get_field(v, "error") {
        None => None,
        Some(e) => {
            if is_null(e) {
                None
            } else {
                match as_string(e) {
                    Some(s) => Some(s),
                    None => {
                        return Err(JsonDecodeError);
                    },
                }
            }
        },
    };
    let timestamp = match get_field(v, "timestamp") {
        None => {
            return Err(JsonDecodeError);
        },
        Some(t) => match as_string(t) {
            None => {
                return Err(JsonDecodeError);
            },
            Some(ts) => match parse_rfc3339(ts.as_str()) {
                None => {
                    return Err(JsonDecodeError);
                },
                Some(e) => UtcTimestamp { seconds: e.0, nanos: e.1 },
            },
        },
    };
    let duration = match get_field(v, "duration") {
        None => None,
        Some(d) => match as_i64(d) {
            Some(n) => Some(n),
            None => {
                return Err(JsonDecodeError);
            },
        },
    };
    let contiguous_failures = match get_field(v, "contiguousFailures") {
        None => None,
        Some(d) => match as_i64(d) {
            Some(n) => Some(n),
            None => {
                return Err(JsonDecodeError);
            },
        },
    };
    let time_of_first_failure = match get_field(v, "timeOfFirstFailure") {
        None => None,
        Some(t) => {
            if is_null(t) {
                None
            } else {
                match as_string(t) {
                    None => {
                        return Err(JsonDecodeError);
                    },
                    Some(ts) => match parse_rfc3339(ts.as_str()) {
                        None => {
                            return Err(JsonDecodeError);
                        },
                        Some(e) => Some(UtcTimestamp { seconds: e.0, nanos: e.1 }),
                    },
                }
            }
        },
    };
    Ok(CheckResult { error, timestamp, duration, contiguous_failures, time_of_first_failure })
}

impl Response {
    /// Decodes a health report from its JSON text.
    pub fn parse_from_str(s: &str) -> (r: Result<Self, JsonDecodeError>)
        ensures
            match r {
                Ok(resp) => spec_response_of(s@) == Some(resp@),
                Err(_) => spec_response_of(s@) is None,
            },
    {
        let v = match parse_json(s) {
            Some(v) => v,
            None => {
                return Err(JsonDecodeError);
            },
        };
        let healthy = match get_field(&v, "healthy") {
            None => None,
            Some(h) => {
                if is_null(h) {
                    None
                } else {
                    match as_bool(h) {
                        Some(b) => Some(b),
                        None => {
                            return Err(JsonDecodeError);
                        },
                    }
                }
            },
        };
        let checks = match get_field(&v, "checks") {
            None => None,
            Some(c) => {
                if is_null(c) {
                    None
                } else {
                    match object_entries(c) {
                        None => {
                            return Err(JsonDecodeError);
                        },
                        Some(es) => {
                            proof {
                                assert(entries_view(es@) =~= json_entries(*c).unwrap());
                            }
                            match parse_checks(es) {
                                Ok(cs) => Some(cs),
                                Err(e) => {
                                    return Err(e);
                                },
                            }
                        },
                    }
                }
            },
        };
        Ok(Response { checks, healthy })
    }
}

fn parse_checks(es: Vec<(String, serde_json::Value)>) -> (r: Result<
    Vec<(String, CheckResult)>,
    JsonDecodeError,
>)
    ensures
        match r {
            Ok(cs) => spec_checks_of(entries_view(es@)) == Some(checks_view(cs@)),
            Err(_) => spec_checks_of(entries_view(es@)) is None,
        },
{
    let ghost ms = entries_view(es@);
    let mut out: Vec<(String, CheckResult)> = Vec::new();
    let mut i: usize = 0;
    proof {
        assert(ms.skip(0) =~= ms);
        if spec_checks_of(ms) is Some {
            let t = spec_checks_of(ms).unwrap();
            assert(checks_view(Seq::<(String, CheckResult)>::empty()) + t =~= t);
            assert(checks_view(out@) =~= checks_view(Seq::<(String, CheckResult)>::empty()));
        }
    }
    while i < es.len()
        invariant
            i <= es@.len(),
            out@.len() == i,
            ms == entries_view(es@),
            spec_checks_of(ms) == (match spec_checks_of(ms.skip(i as int)) {
                Some(t) => Some(checks_view(out@) + t),
                None => None::<Seq<(Seq<char>, CheckResultView)>>,
            }),
        decreases es@.len() - i,
    {
        let pair = &es[i];
        proof {
            assert(ms.skip(i as int)[0] == ms[i as int]);
            assert(ms[i as int].0 == es@[i as int].0@ && ms[i as int].1 == es@[i as int].1);
            assert(ms.skip(i as int).skip(1) =~= ms.skip(i as int + 1));
        }
        match parse_check(&pair.1) {
            Ok(c) => {
                let ghost out0 = out@;
                out.push((pair.0.clone(), c));
                proof {
                    assert(checks_view(out@) =~= checks_view(out0).push(
                        (es@[i as int].0@, c@),
                    ));
                    if spec_checks_of(ms.skip(i as int + 1)) is Some {
                        let t = spec_checks_of(ms.skip(i as int + 1)).unwrap();
                        assert(checks_view(out0) + (seq![(ms[i as int].0, c@)] + t) =~= checks_view(
                            out@,
                        ) + t);
                    }
                }
            },
            Err(e) => {
                return Err(e);
            },
        }
        i += 1;
    }
    proof {
        assert(ms.skip(ms.len() as int) =~= Seq::<(Seq<char>, serde_json::Value)>::empty());
        if spec_checks_of(ms) is Some {
            assert(checks_view(out@) + Seq::<(Seq<char>, CheckResultView)>::empty() =~= checks_view(
                out@,
            ));
        }
    }
    Ok(out)
}

/// The spec-level contents of an entries vector.
pub open spec fn entries_view(es: Seq<(String, serde_json::Value)>) -> Seq<
    (Seq<char>, serde_json::Value),
> {
    Seq::new(es.len(), |i: int| (es[i].0@, es[i].1))
}

} // verus!
