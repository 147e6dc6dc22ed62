//! Operational settings of a running server: their values, where each value came
//! from, their JSON form, and partial updates.
use vstd::prelude::*;
use crate::json::{Json, json_bool};
use crate::text::{decimal, parse_unsigned, parse_usize, push_decimal, push_str, str_eq, to_owned_string};

verus! {

/// How a setting's current value was established.
#[derive(Debug, Clone, Copy, PartialEq, Eq, Structural)]
pub enum SettingSource {
    /// From an environment variable at startup.
    Env,
    /// No environment variable was set: the built-in default.
    Default,
    /// Changed through `POST /settings` in this session.
    Runtime,
}

/// The name of a setting source.
pub open spec fn source_name(s: SettingSource) -> Seq<char> {
    match s {
        SettingSource::Env => "env"@,
        SettingSource::Default => "default"@,
        SettingSource::Runtime => "runtime"@,
    }
}

impl SettingSource {
    /// The name of the source: `env`, `default` or `runtime`.
    pub fn as_str(&self) -> (r: &'static str)
        ensures
            r@ == source_name(*self),
    {
        match self {
            SettingSource::Env => "env",
            SettingSource::Default => "default",
            SettingSource::Runtime => "runtime",
        }
    }
}

/// The settings of a running server.
#[derive(Debug, Clone, Copy, PartialEq, Eq, Structural)]
pub struct RuntimeSettings {
    /// Skip BM25 index updates on writes (mutable).
    pub skip_bm25_on_write: bool,
    pub skip_bm25_source: SettingSource,
    /// The number of worker threads (fixed at startup).
    pub worker_threads: usize,
}

/// The value and source of `skip_bm25_on_write` given the environment variable
/// `SPARROW_SKIP_BM25_ON_WRITE` (`None` when unset): `1`, `true`, `True` and `TRUE`
/// switch it on; any other value switches it off.
pub open spec fn skip_setting_spec(var: Option<Seq<char>>) -> (bool, SettingSource) {
    match var {
        None => (false, SettingSource::Default),
        Some(v) => (v == "1"@ || v == "true"@ || v == "True"@ || v == "TRUE"@, SettingSource::Env),
    }
}

/// Reads `skip_bm25_on_write` from its environment variable.
pub fn skip_setting_from_env(var: Option<&str>) -> (r: (bool, SettingSource))
    ensures
        r == skip_setting_spec(match var {
            Some(v) => Some(v@),
            None => None,
        }),
{
    match var {
        None => (false, SettingSource::Default),
        Some(v) => (str_eq(v, "1") || str_eq(v, "true") || str_eq(v, "True") || str_eq(v, "TRUE"), SettingSource::Env),
    }
}

/// The smallest even number at least `max(n, 2)`.
pub open spec fn even_at_least_two(n: int) -> int {
    let m = if n < 2 {
        2
    } else {
        n
    };
    if m % 2 == 0 {
        m
    } else {
        m + 1
    }
}

/// The number of worker threads: from `SPARROW_WORKER_THREADS` when it holds a number,
/// else four per core (one core when unknown) up to 64; either way at least 2 and even.
pub open spec fn worker_threads_spec(var: Option<Seq<char>>, cores: Option<usize>) -> int {
    let given = match var {
        Some(v) => parse_unsigned(v, usize::MAX as nat),
        None => None,
    };
    match given {
        Some(n) => even_at_least_two(n as int),
        None => {
            let c: int = match cores {
                Some(k) => if k < 1 {
                    1
                } else {
                    k as int
                },
                None => 1,
            };
            even_at_least_two(if 4 * c > 64 {
                64
            } else {
                4 * c
            })
        },
    }
}

/// Computes the number of worker threads from `SPARROW_WORKER_THREADS` and the number
/// of cores. A value of `usize::MAX` has no even number above it and is refused by the caller.
pub fn worker_threads_from(var: Option<&str>, cores: Option<usize>) -> (r: usize)
    requires
        match var {
            Some(v) => parse_unsigned(v@, usize::MAX as nat) != Some(usize::MAX as nat),
            None => true,
        },
    ensures
        r as int == worker_threads_spec(
            match var {
                Some(v) => Some(v@),
                None => None,
            },
            cores,
        ),
        r >= 2,
        r % 2 == 0,
{
    let given = match var {
        Some(v) => parse_usize(v),
        None => None,
    };
    match given {
        Some(n) => {
            let m = if n < 2 {
                2
            } else {
                n
            };
            if m % 2 == 0 {
                m
            } else {
                m + 1
            }
        },
        None => {
            let c: usize = match cores {
                Some(k) => if k < 1 {
                    1
                } else {
                    k
                },
                None => 1,
            };
            let capped: usize = if c > 16 {
                16
            } else {
                c
            };
            let n = 4 * capped;
            if n % 2 == 0 {
                n
            } else {
                n + 1
            }
        },
    }
}

/// The JSON form of the settings.
pub open spec fn settings_json_spec(s: RuntimeSettings) -> Seq<char> {
    "{\"settings\":{\"skip_bm25_on_write\":{\"value\":"@ + (if s.skip_bm25_on_write {
        "true"@
    } else {
        "false"@
    }) + ",\"source\":\""@ + source_name(s.skip_bm25_source) + "\",\"mutable\":true},\"worker_threads\":{\"value\":"@
        + decimal(s.worker_threads as nat) + ",\"source\":\"env\",\"mutable\":false}}}"@
}

impl RuntimeSettings {
    /// The settings at start-up, from the values of `SPARROW_SKIP_BM25_ON_WRITE` and
    /// `SPARROW_WORKER_THREADS` (`None` when unset) and the number of available cores.
    pub fn from_env_values(skip_var: Option<&str>, workers_var: Option<&str>, cores: Option<usize>) -> (r:
        RuntimeSettings)
        requires
            match workers_var {
                Some(v) => parse_unsigned(v@, usize::MAX as nat) != Some(usize::MAX as nat),
                None => true,
            },
        ensures
            (r.skip_bm25_on_write, r.skip_bm25_source) == skip_setting_spec(match skip_var {
                Some(v) => Some(v@),
                None => None,
            }),
            r.worker_threads as int == worker_threads_spec(
                match workers_var {
                    Some(v) => Some(v@),
                    None => None,
                },
                cores,
            ),
    {
        let (skip_bm25_on_write, skip_bm25_source) = skip_setting_from_env(skip_var);
        RuntimeSettings { skip_bm25_on_write, skip_bm25_source, worker_threads: worker_threads_from(workers_var, cores) }
    }

    /// Switches `skip_bm25_on_write` and marks it as set at runtime.
    pub fn set_skip_bm25_on_write(&mut self, value: bool)
        ensures
            final(self).skip_bm25_on_write == value,
            final(self).skip_bm25_source == SettingSource::Runtime,
            final(self).worker_threads == old(self).worker_threads,
    {
        self.skip_bm25_on_write = value;
        self.skip_bm25_source = SettingSource::Runtime;
    }

    /// The settings as JSON, each with its value, its source and whether it can change.
    pub fn to_json(&self) -> (r: String)
        ensures
            r@ == settings_json_spec(*self),
    {
        let mut s = to_owned_string("{\"settings\":{\"skip_bm25_on_write\":{\"value\":");
        if self.skip_bm25_on_write {
            push_str(&mut s, "true");
        } else {
            push_str(&mut s, "false");
        }
        push_str(&mut s, ",\"source\":\"");
        push_str(&mut s, self.skip_bm25_source.as_str());
        push_str(&mut s, "\",\"mutable\":true},\"worker_threads\":{\"value\":");
        push_decimal(&mut s, self.worker_threads as u128);
        push_str(&mut s, ",\"source\":\"env\",\"mutable\":false}}}");
        s
    }
}

/// Why a settings update was refused.
#[derive(Debug)]
pub enum PatchError {
    /// The body is no JSON object.
    NotAnObject,
    /// `skip_bm25_on_write` was given something else than a boolean.
    NotABoolean,
    /// `worker_threads` cannot change while running.
    Immutable,
    /// The named setting does not exist.
    UnknownSetting(String),
}

/// The message answered for a refused settings update.
pub open spec fn patch_error_text(e: PatchErrorV) -> Seq<char> {
    match e {
        PatchErrorV::NotAnObject => "request body must be a JSON object"@,
        PatchErrorV::NotABoolean => "skip_bm25_on_write must be a boolean"@,
        PatchErrorV::Immutable => "setting 'worker_threads' is immutable \u{2014} restart the container to change it"@,
        PatchErrorV::UnknownSetting(k) => "unknown setting '"@ + k + "'"@,
    }
}

impl PatchError {
    /// The message answered for the error.
    pub fn message(&self) -> (r: String)
        ensures
            r@ == patch_error_text(patch_error_view(*self)),
    {
        match self {
            PatchError::NotAnObject => to_owned_string("request body must be a JSON object"),
            PatchError::NotABoolean => to_owned_string("skip_bm25_on_write must be a boolean"),
            PatchError::Immutable => to_owned_string(
                "setting 'worker_threads' is immutable \u{2014} restart the container to change it",
            ),
            PatchError::UnknownSetting(k) => {
                let mut s = to_owned_string("unknown setting '");
                push_str(&mut s, k.as_str());
                push_str(&mut s, "'");
                s
            },
        }
    }
}

/// The settings after the members of a patch from the `i`-th on were applied in order,
/// or the first error; earlier members stay applied when a later one fails.
pub open spec fn patch_from(s: RuntimeSettings, members: Seq<(String, Json)>, i: int) -> (
    RuntimeSettings,
    Option<PatchErrorV>,
)
    decreases members.len() - i,
{
    if i >= members.len() || i < 0 {
        (s, None)
    } else {
        let k = members[i].0@;
        if k == "skip_bm25_on_write"@ {
            match json_bool(members[i].1) {
                None => (s, Some(PatchErrorV::NotABoolean)),
                Some(b) => patch_from(
                    RuntimeSettings { skip_bm25_on_write: b, skip_bm25_source: SettingSource::Runtime, ..s },
                    members,
                    i + 1,
                ),
            }
        } else if k == "worker_threads"@ {
            (s, Some(PatchErrorV::Immutable))
        } else {
            (s, Some(PatchErrorV::UnknownSetting(k)))
        }
    }
}

/// `worker_threads` is fixed while the server runs: no settings update changes it,
/// whether it succeeds or not.
pub proof fn lemma_patch_keeps_worker_threads(s: RuntimeSettings, members: Seq<(String, Json)>, i: int)
    ensures
        patch_from(s, members, i).0.worker_threads == s.worker_threads,
    decreases members.len() - i,
{
    if 0 <= i < members.len() {
        let k = members[i].0@;
        if k == "skip_bm25_on_write"@ {
            if let Some(b) = json_bool(members[i].1) {
                lemma_patch_keeps_worker_threads(
                    RuntimeSettings { skip_bm25_on_write: b, skip_bm25_source: SettingSource::Runtime, ..s },
                    members,
                    i + 1,
                );
            }
        }
    }
}

/// The content of a [`PatchError`].
pub enum PatchErrorV {
    NotAnObject,
    NotABoolean,
    Immutable,
    UnknownSetting(Seq<char>),
}

/// The content of a patch error.
pub open spec fn patch_error_view(e: PatchError) -> PatchErrorV {
    match e {
        PatchError::NotAnObject => PatchErrorV::NotAnObject,
        PatchError::NotABoolean => PatchErrorV::NotABoolean,
        PatchError::Immutable => PatchErrorV::Immutable,
        PatchError::UnknownSetting(k) => PatchErrorV::UnknownSetting(k@),
    }
}

/// Applies a partial update of the settings: only `skip_bm25_on_write` can change (to a
/// boolean); `worker_threads` and unknown names are refused. Members apply in order.
pub fn apply_settings_patch(settings: &mut RuntimeSettings, patch: &Json) -> (r: Result<(), PatchError>)
    ensures
        !(*patch is Object) ==> *final(settings) == *old(settings),
        !(*patch is Object) ==> (r matches Err(e) && e is NotAnObject),
        final(settings).worker_threads == old(settings).worker_threads,
        *patch matches Json::Object(members) ==> ({
            let (s2, err) = patch_from(*old(settings), members@, 0);
            &&& *final(settings) == s2
            &&& (r is Ok <==> err is None)
            &&& r matches Err(e) ==> err == Some(patch_error_view(e))
        }),
{
    match patch {
        Json::Object(members) => {
            let mut i: usize = 0;
            while i < members.len()
                invariant
                    i <= members@.len(),
                    *patch == Json::Object(*members),
                    patch_from(*old(settings), members@, 0) == patch_from(*settings, members@, i as int),
                    settings.worker_threads == old(settings).worker_threads,
                decreases members@.len() - i,
            {
                let key = members[i].0.as_str();
                if str_eq(key, "skip_bm25_on_write") {
                    match members[i].1.as_bool() {
                        Some(b) => settings.set_skip_bm25_on_write(b),
                        None => {
                            return Err(PatchError::NotABoolean);
                        },
                    }
                } else if str_eq(key, "worker_threads") {
                    return Err(PatchError::Immutable);
                } else {
                    return Err(PatchError::UnknownSetting(to_owned_string(key)));
                }
                i = i + 1;
            }
            Ok(())
        },
        _ => Err(PatchError::NotAnObject),
    }
}


/// The JSON body of an error answer: `{"error":"<message>"}`.
pub open spec fn error_body(msg: Seq<char>) -> Seq<char> {
    "{\"error\":\""@ + msg + "\"}"@
}

fn error_answer(msg: &str) -> (r: String)
    ensures
        r@ == error_body(msg@),
{
    let mut s = to_owned_string("{\"error\":\"");
    push_str(&mut s, msg);
    push_str(&mut s, "\"}");
    s
}

/// The answer of `POST /settings` to an administrator: `patch` is the request body read
/// as JSON, or why it could not be read. A body that is no JSON gets status 400 and
/// `invalid JSON: ` with the reason; otherwise the patch is applied, and the answer is
/// status 200 with the settings, or status 400 with the refusal's message.
pub fn post_settings_answer(settings: &mut RuntimeSettings, patch: Result<&Json, String>) -> (r: (u16, String))
    ensures
        final(settings).worker_threads == old(settings).worker_threads,
        patch matches Err(e) ==> *final(settings) == *old(settings) && r.0 == 400 && r.1@ == error_body(
            "invalid JSON: "@ + e@,
        ),
        patch matches Ok(p) ==> !(*p is Object) ==> *final(settings) == *old(settings) && r.0 == 400
            && r.1@ == error_body(patch_error_text(PatchErrorV::NotAnObject)),
        patch matches Ok(p) ==> (*p matches Json::Object(members) ==> ({
            let (s2, err) = patch_from(*old(settings), members@, 0);
            &&& *final(settings) == s2
            &&& err is None ==> r.0 == 200 && r.1@ == settings_json_spec(s2)
            &&& err matches Some(e) ==> r.0 == 400 && r.1@ == error_body(patch_error_text(e))
        })),
{
    match patch {
        Err(e) => {
            let mut m = to_owned_string("invalid JSON: ");
            push_str(&mut m, e.as_str());
            (400, error_answer(m.as_str()))
        },
        Ok(p) => match apply_settings_patch(settings, p) {
            Ok(()) => (200, settings.to_json()),
            Err(e) => {
                let m = e.message();
                (400, error_answer(m.as_str()))
            },
        },
    }
}

} // verus!
