use vstd::prelude::*;
use crate::json::{Json, JsonValue};
use crate::merge::merge_spec;
use vstd::string::StringExecFns;
use crate::text::{replace_all, replace_spec};

verus! {

/// What reading one configured source produced.
pub enum SourceOutcome {
    /// The document flattened from the environment.
    Env(JsonValue),
    /// The document parsed from a file.
    File(JsonValue),
    /// A file that does not exist, with its path and whether it may be skipped.
    MissingFile(String, bool),
    /// What a custom provider returned, or its error message.
    Custom(Result<JsonValue, String>),
}

/// Why a resolution failed.
#[derive(Debug)]
pub enum ConfigError {
    /// A file that must be read does not exist.
    FileNotFound(String),
}

/// The model of an outcome.
pub enum OutcomeModel {
    Env(Json),
    File(Json),
    MissingFile(Seq<char>, bool),
    CustomOk(Json),
    CustomFailed,
}

impl View for SourceOutcome {
    type V = OutcomeModel;

    open spec fn view(&self) -> OutcomeModel {
        match self {
            SourceOutcome::Env(v) => OutcomeModel::Env(v@),
            SourceOutcome::File(v) => OutcomeModel::File(v@),
            SourceOutcome::MissingFile(p, skip) => OutcomeModel::MissingFile(p@, *skip),
            SourceOutcome::Custom(Ok(v)) => OutcomeModel::CustomOk(v@),
            SourceOutcome::Custom(Err(_)) => OutcomeModel::CustomFailed,
        }
    }
}

/// What one outcome contributes: a document to merge, nothing, or the path
/// of a missing file that may not be skipped.
///
/// An empty (`Null`) environment or file document contributes nothing; a
/// custom provider contributes only an object, and its failure nothing.
pub open spec fn contribution(o: OutcomeModel) -> Result<Option<Json>, Seq<char>> {
    match o {
        OutcomeModel::Env(v) => Ok(
            if v is Null {
                None
            } else {
                Some(v)
            },
        ),
        OutcomeModel::File(v) => Ok(
            if v is Null {
                None
            } else {
                Some(v)
            },
        ),
        OutcomeModel::MissingFile(p, skip) => if skip {
            Ok(None)
        } else {
            Err(p)
        },
        OutcomeModel::CustomOk(v) => Ok(
            if v is Object {
                Some(v)
            } else {
                None
            },
        ),
        OutcomeModel::CustomFailed => Ok(None),
    }
}

/// The accumulated document after one more outcome.
pub open spec fn step_spec(acc: Json, o: OutcomeModel) -> Result<Json, Seq<char>> {
    match contribution(o) {
        Ok(Some(v)) => Ok(merge_spec(acc, v)),
        Ok(None) => Ok(acc),
        Err(p) => Err(p),
    }
}

/// The document that the first `n` outcomes give, folded in order onto
/// `Null`; the first missing file that may not be skipped stops the fold.
pub open spec fn resolve_spec(outs: Seq<OutcomeModel>, n: int) -> Result<Json, Seq<char>>
    decreases n,
{
    if n <= 0 || n > outs.len() {
        Ok(Json::Null)
    } else {
        match resolve_spec(outs, n - 1) {
            Ok(acc) => step_spec(acc, outs[n - 1]),
            Err(p) => Err(p),
        }
    }
}

/// The models of a list of outcomes.
pub open spec fn outcomes_view(os: Seq<SourceOutcome>) -> Seq<OutcomeModel> {
    Seq::new(os.len(), |i: int| os[i]@)
}

impl ConfigError {
    /// The path that the error names.
    pub open spec fn path_of(&self) -> Seq<char> {
        match self {
            ConfigError::FileNotFound(p) => p@,
        }
    }

    /// A message that names the offending source.
    pub fn message(&self) -> (r: String)
        ensures
            r@ == "No file found in path: "@ + self.path_of(),
    {
        match self {
            ConfigError::FileNotFound(p) => {
                let mut m = String::from_str("No file found in path: ");
                m.append(p.as_str());
                m
            },
        }
    }
}

/// Folds one outcome into the accumulated document.
///
/// A missing file that may not be skipped fails, naming its path, and leaves
/// the document as it was; so does every outcome that contributes nothing.
pub fn apply_outcome(acc: &mut JsonValue, outcome: SourceOutcome) -> (r: Result<(), ConfigError>)
    ensures
        match step_spec(old(acc)@, outcome@) {
            Ok(j) => r is Ok && final(acc)@ == j,
            Err(p) => r matches Err(e) && e.path_of() == p && final(acc)@ == old(acc)@,
        },
        outcome is MissingFile ==> final(acc)@ == old(acc)@,
        outcome matches SourceOutcome::MissingFile(_, skip) ==> (r is Ok <==> skip),
{
    proof {
        crate::json::lemma_view_variant(*acc);
    }
    match outcome {
        SourceOutcome::Env(v) => {
            proof {
                crate::json::lemma_view_variant(v);
            }
            if !matches!(v, JsonValue::Null) {
                acc.merge(v);
            }
            Ok(())
        },
        SourceOutcome::File(v) => {
            proof {
                crate::json::lemma_view_variant(v);
            }
            if !matches!(v, JsonValue::Null) {
                acc.merge(v);
            }
            Ok(())
        },
        SourceOutcome::MissingFile(path, skip) => {
            if skip {
                Ok(())
            } else {
                Err(ConfigError::FileNotFound(path))
            }
        },
        SourceOutcome::Custom(Ok(v)) => {
            proof {
                crate::json::lemma_view_variant(v);
            }
            if matches!(v, JsonValue::Object(_)) {
                acc.merge(v);
            }
            Ok(())
        },
        SourceOutcome::Custom(Err(_)) => Ok(()),
    }
}

/// Resolves the outcomes of all sources, in order, into one document.
pub fn resolve_outcomes(outcomes: Vec<SourceOutcome>) -> (r: Result<JsonValue, ConfigError>)
    ensures
        match resolve_spec(outcomes_view(outcomes@), outcomes@.len() as int) {
            Ok(j) => r matches Ok(v) && v@ == j,
            Err(p) => r matches Err(e) && e.path_of() == p,
        },
{
    let ghost ov = outcomes_view(outcomes@);
    let ghost o0 = outcomes@;
    let n = outcomes.len();
    let mut rest = outcomes;
    let mut acc = JsonValue::Null;
    let mut i: usize = 0;
    while i < n
        invariant
            n == o0.len(),
            o0 == outcomes@,
            ov == outcomes_view(o0),
            i <= n,
            rest@ == o0.skip(i as int),
            resolve_spec(ov, i as int) == Ok::<Json, Seq<char>>(acc@),
        decreases n - i,
    {
        let o = rest.remove(0);
        proof {
            assert(o0[i as int] == o);
            assert(rest@ =~= o0.skip(i as int + 1));
        }
        match apply_outcome(&mut acc, o) {
            Ok(()) => {},
            Err(e) => {
                proof {
                    assert(resolve_spec(ov, i as int + 1) == Err::<Json, Seq<char>>(e.path_of()));
                    lemma_resolve_stops(ov, i as int + 1, n as int);
                }
                return Err(e);
            },
        }
        i = i + 1;
    }
    Ok(acc)
}

/// Once the fold has failed, it stays failed with the same path.
pub proof fn lemma_resolve_stops(outs: Seq<OutcomeModel>, k: int, n: int)
    requires
        0 < k <= n <= outs.len(),
        resolve_spec(outs, k) is Err,
    ensures
        resolve_spec(outs, n) == resolve_spec(outs, k),
    decreases n - k,
{
    if n > k {
        lemma_resolve_stops(outs, k, n - 1);
    }
}

/// Resolving the same outcomes twice gives the same document, or the same
/// failure.
pub proof fn law_resolution_repeatable(a: Seq<OutcomeModel>, b: Seq<OutcomeModel>)
    requires
        a == b,
    ensures
        resolve_spec(a, a.len() as int) == resolve_spec(b, b.len() as int),
{
}

/// The path of a file source once `{{env}}` stands for the build profile.
pub open spec fn profile_path(path: Seq<char>, enabled: bool, is_release: bool) -> Seq<char> {
    if enabled {
        replace_spec(
            path,
            "{{env}}"@,
            if is_release {
                "release"@
            } else {
                "debug"@
            },
        )
    } else {
        path
    }
}

/// Puts the build profile, `release` or `debug`, in place of each `{{env}}`
/// in `path`, where substitution is enabled.
pub fn file_path_for(path: &str, enabled_environment: bool, is_release: bool) -> (r: String)
    ensures
        r@ == profile_path(path@, enabled_environment, is_release),
{
    if enabled_environment {
        if is_release {
            replace_all(path, "{{env}}", "release")
        } else {
            replace_all(path, "{{env}}", "debug")
        }
    } else {
        path.to_owned()
    }
}

/// A resolved configuration value.
pub struct NorthConfig<T> {
    pub value: T,
}

impl<T> NorthConfig<T> {
    /// The configuration value.
    pub fn get_value(&self) -> (r: &T)
        ensures
            *r == self.value,
    {
        &self.value
    }
}

} // verus!
