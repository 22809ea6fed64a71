//! Reading a build tree out of the server's JSON answer.
//!
//! The `state` member picks the variant; each variant has its own required
//! members; members the model does not use are ignored. Dependencies are read
//! with the same rule at every depth.
use crate::json::{field, get_field, member_value, Json, Member};
use crate::teamcity::{
    Build, BuildStatus, BuildType, RunningInfo, SnapshotDependencies,
};
use vstd::prelude::*;

verus! {

/// A string member.
pub open spec fn string_value(v: Option<Json>) -> Option<Seq<char>> {
    match v {
        Some(Json::Str(s)) => Some(s@),
        _ => None,
    }
}

/// An integer member within `lo..=hi`.
pub open spec fn int_value(v: Option<Json>, lo: i128, hi: i128) -> Option<i128> {
    match v {
        Some(Json::Integer(n)) => if lo <= n <= hi {
            Some(n)
        } else {
            None
        },
        _ => None,
    }
}

/// A boolean member.
pub open spec fn bool_value(v: Option<Json>) -> Option<bool> {
    match v {
        Some(Json::Bool(b)) => Some(b),
        _ => None,
    }
}

/// A status member: one of the three status names.
pub open spec fn status_value(v: Option<Json>) -> Option<BuildStatus> {
    match string_value(v) {
        Some(s) => if s == "SUCCESS"@ {
            Some(BuildStatus::Success)
        } else if s == "FAILURE"@ {
            Some(BuildStatus::Failure)
        } else if s == "ERROR"@ {
            Some(BuildStatus::Error)
        } else {
            None
        },
        None => None,
    }
}

/// The `running-info` object of a running build.
pub open spec fn running_info_value(v: Option<Json>) -> Option<RunningInfo> {
    match v {
        Some(r) => {
            let p = int_value(field(r, "percentageComplete"@), 0i128, 65535i128);
            let e = int_value(field(r, "elapsedSeconds"@), -2147483648i128, 2147483647i128);
            let t = int_value(field(r, "estimatedTotalSeconds"@), -2147483648i128, 2147483647i128);
            let o = bool_value(field(r, "outdated"@));
            let h = bool_value(field(r, "probablyHanging"@));
            if p is Some && e is Some && t is Some && o is Some && h is Some {
                Some(
                    RunningInfo {
                        percentage_complete: p->0 as u16,
                        elapsed_seconds: e->0 as i32,
                        estimated_total_seconds: t->0 as i32,
                        outdated: o->0,
                        probably_hanging: h->0,
                    },
                )
            } else {
                None
            }
        },
        None => None,
    }
}

/// The display name under `buildType`.
pub open spec fn type_name_value(j: Json) -> Option<Seq<char>> {
    match field(j, "buildType"@) {
        Some(t) => string_value(field(t, "name"@)),
        None => None,
    }
}

/// The dependency documents of `j`: an absent or null `snapshot-dependencies`
/// member means none; otherwise it must hold a `build` array.
pub open spec fn deps_value(j: Json) -> Option<Seq<Json>> {
    match field(j, "snapshot-dependencies"@) {
        None => Some(Seq::empty()),
        Some(Json::Null) => Some(Seq::empty()),
        Some(d) => match field(d, "build"@) {
            Some(Json::Array(v)) => Some(v@),
            _ => None,
        },
    }
}

/// The `state` member, which names the variant.
pub open spec fn state_value(j: Json) -> Option<Seq<char>> {
    string_value(field(j, "state"@))
}

/// The members of `j` other than its dependencies describe `b`'s own node.
pub open spec fn node_decodes_to(j: Json, b: Build) -> bool {
    match b {
        Build::Queued { build_type, web_url, .. } => {
            &&& state_value(j) == Some("queued"@)
            &&& type_name_value(j) == Some(build_type.name@)
            &&& string_value(field(j, "webUrl"@)) == Some(web_url@)
        },
        Build::Running {
            build_type,
            number,
            status,
            status_text,
            web_url,
            running_info,
            ..
        } => {
            &&& state_value(j) == Some("running"@)
            &&& type_name_value(j) == Some(build_type.name@)
            &&& string_value(field(j, "number"@)) == Some(number@)
            &&& status_value(field(j, "status"@)) == Some(status)
            &&& string_value(field(j, "statusText"@)) == Some(status_text@)
            &&& string_value(field(j, "webUrl"@)) == Some(web_url@)
            &&& running_info_value(field(j, "running-info"@)) == Some(running_info)
        },
        Build::Finished { build_type, number, status, status_text, web_url, .. } => {
            &&& state_value(j) == Some("finished"@)
            &&& type_name_value(j) == Some(build_type.name@)
            &&& string_value(field(j, "number"@)) == Some(number@)
            &&& status_value(field(j, "status"@)) == Some(status)
            &&& string_value(field(j, "statusText"@)) == Some(status_text@)
            &&& string_value(field(j, "webUrl"@)) == Some(web_url@)
        },
    }
}

/// Whether the node members of `j` have the shape of some build variant.
pub open spec fn node_is_build(j: Json) -> bool {
    let common = type_name_value(j) is Some && string_value(field(j, "webUrl"@)) is Some;
    let finished = common && string_value(field(j, "number"@)) is Some && status_value(
        field(j, "status"@),
    ) is Some && string_value(field(j, "statusText"@)) is Some;
    match state_value(j) {
        Some(s) => if s == "queued"@ {
            common
        } else if s == "running"@ {
            finished && running_info_value(field(j, "running-info"@)) is Some
        } else if s == "finished"@ {
            finished
        } else {
            false
        },
        None => false,
    }
}

/// Whether `j` is a build document, its dependencies included, at every depth.
pub open spec fn is_build(j: Json) -> bool
    decreases j,
{
    proof {
        lemma_deps_decrease(j);
    }
    &&& node_is_build(j)
    &&& deps_value(j) is Some
    &&& forall|i: int| 0 <= i < deps_value(j)->0.len() ==> is_build(#[trigger] deps_value(j)->0[i])
}

/// Whether `b` is the build that `j` describes, its dependencies included.
pub open spec fn decodes_to(j: Json, b: Build) -> bool
    decreases j,
{
    proof {
        lemma_deps_decrease(j);
    }
    &&& node_decodes_to(j, b)
    &&& deps_value(j) is Some
    &&& b.deps().len() == deps_value(j)->0.len()
    &&& forall|i: int|
        0 <= i < b.deps().len() ==> decodes_to(#[trigger] deps_value(j)->0[i], b.deps()[i])
}

/// A member value found by key is one of the members' values.
pub proof fn lemma_member_in(ms: Seq<Member>, key: Seq<char>)
    ensures
        member_value(ms, key) matches Some(v) ==> exists|k: int| 0 <= k < ms.len() && ms[k].value == v,
    decreases ms.len(),
{
    if ms.len() > 0 && ms[0].key@ != key {
        lemma_member_in(ms.drop_first(), key);
        if member_value(ms, key) is Some {
            let k = choose|k: int| 0 <= k < ms.drop_first().len() && ms.drop_first()[k].value == member_value(ms, key)->0;
            assert(ms[k + 1] == ms.drop_first()[k]);
        }
    } else if ms.len() > 0 {
        assert(ms[0].value == member_value(ms, key)->0);
    }
}

/// A member value is smaller than the object holding it.
pub proof fn lemma_field_decreases(j: Json, key: Seq<char>)
    ensures
        field(j, key) matches Some(v) ==> decreases_to!(j => v),
{
    if let Json::Object(members) = j {
        lemma_member_in(members@, key);
        if let Some(v) = field(j, key) {
            let k = choose|k: int| 0 <= k < members@.len() && members@[k].value == v;
            assert(decreases_to!(j => members));
            assert(decreases_to!(members => members@));
            assert(decreases_to!(members@ => members@[k]));
            assert(decreases_to!(members@[k] => members@[k].value));
        }
    }
}

/// Each dependency document is smaller than the document holding it.
pub proof fn lemma_deps_decrease(j: Json)
    ensures
        deps_value(j) matches Some(ds) ==> forall|i: int| 0 <= i < ds.len() ==> decreases_to!(j => #[trigger] ds[i]),
{
    lemma_field_decreases(j, "snapshot-dependencies"@);
    if let Some(d) = field(j, "snapshot-dependencies"@) {
        lemma_field_decreases(d, "build"@);
        if let Some(Json::Array(v)) = field(d, "build"@) {
            assert forall|i: int| 0 <= i < v@.len() implies decreases_to!(j => #[trigger] v@[i]) by {
                assert(decreases_to!(Json::Array(v) => v));
                assert(decreases_to!(v => v@));
                assert(decreases_to!(v@ => v@[i]));
            }
        }
    }
}

/// Whether two strings hold the same characters.
pub fn str_equal(a: &str, b: &str) -> (r: bool)
    ensures
        r == (a@ == b@),
{
    a.to_owned() == b.to_owned()
}

fn string_field(j: &Json, key: &str) -> (r: Option<String>)
    ensures
        match r {
            Some(s) => string_value(field(*j, key@)) == Some(s@),
            None => string_value(field(*j, key@)) is None,
        },
{
    match get_field(j, key) {
        Some(Json::Str(s)) => Some(s.clone()),
        _ => None,
    }
}

fn int_field(j: &Json, key: &str, lo: i128, hi: i128) -> (r: Option<i128>)
    ensures
        r == int_value(field(*j, key@), lo, hi),
{
    match get_field(j, key) {
        Some(Json::Integer(n)) => if lo <= *n && *n <= hi {
            Some(*n)
        } else {
            None
        },
        _ => None,
    }
}

fn bool_field(j: &Json, key: &str) -> (r: Option<bool>)
    ensures
        r == bool_value(field(*j, key@)),
{
    match get_field(j, key) {
        Some(Json::Bool(b)) => Some(*b),
        _ => None,
    }
}

fn status_field(j: &Json) -> (r: Option<BuildStatus>)
    ensures
        r == status_value(field(*j, "status"@)),
{
    match get_field(j, "status") {
        Some(Json::Str(s)) => if str_equal(s.as_str(), "SUCCESS") {
            Some(BuildStatus::Success)
        } else if str_equal(s.as_str(), "FAILURE") {
            Some(BuildStatus::Failure)
        } else if str_equal(s.as_str(), "ERROR") {
            Some(BuildStatus::Error)
        } else {
            None
        },
        _ => None,
    }
}

fn running_info_field(j: &Json) -> (r: Option<RunningInfo>)
    ensures
        r == running_info_value(field(*j, "running-info"@)),
{
    let info = match get_field(j, "running-info") {
        Some(info) => info,
        None => return None,
    };
    let p = int_field(info, "percentageComplete", 0, 65535);
    let e = int_field(info, "elapsedSeconds", -2147483648, 2147483647);
    let t = int_field(info, "estimatedTotalSeconds", -2147483648, 2147483647);
    let o = bool_field(info, "outdated");
    let h = bool_field(info, "probablyHanging");
    match (p, e, t, o, h) {
        (Some(p), Some(e), Some(t), Some(o), Some(h)) => Some(
            RunningInfo {
                percentage_complete: p as u16,
                elapsed_seconds: e as i32,
                estimated_total_seconds: t as i32,
                outdated: o,
                probably_hanging: h,
            },
        ),
        _ => None,
    }
}

fn type_name_field(j: &Json) -> (r: Option<String>)
    ensures
        match r {
            Some(s) => type_name_value(*j) == Some(s@),
            None => type_name_value(*j) is None,
        },
{
    match get_field(j, "buildType") {
        Some(t) => string_field(t, "name"),
        None => None,
    }
}

/// Reads the build that `j` describes, dependencies included; `None` when
/// `j` does not have the shape of a build at some depth.
pub fn decode_build(j: &Json) -> (r: Option<Build>)
    ensures
        r is Some <==> is_build(*j),
        r matches Some(b) ==> decodes_to(*j, b),
    decreases *j,
{
    proof {
        lemma_deps_decrease(*j);
    }
    let mut deps: Vec<Build> = Vec::new();
    match get_field(j, "snapshot-dependencies") {
        None => {},
        Some(Json::Null) => {},
        Some(d) => match get_field(d, "build") {
            Some(Json::Array(items)) => {
                let ghost ds = deps_value(*j)->0;
                assert(ds == items@);
                let mut i: usize = 0;
                while i < items.len()
                    invariant
                        0 <= i <= items@.len(),
                        deps_value(*j) == Some(items@),
                        deps@.len() == i,
                        forall|k: int| 0 <= k < i ==> is_build(#[trigger] items@[k]),
                        forall|k: int| 0 <= k < i ==> decodes_to(#[trigger] items@[k], deps@[k]),
                        forall|k: int| 0 <= k < items@.len() ==> decreases_to!(*j => #[trigger] items@[k]),
                    decreases items@.len() - i,
                {
                    match decode_build(&items[i]) {
                        Some(b) => deps.push(b),
                        None => {
                            assert(!is_build(deps_value(*j)->0[i as int]));
                            return None;
                        },
                    }
                    i = i + 1;
                }
            },
            _ => return None,
        },
    }
    let ghost ds = deps_value(*j)->0;
    assert(deps_value(*j) is Some);
    assert(ds.len() == deps@.len());
    assert(forall|k: int| 0 <= k < ds.len() ==> is_build(#[trigger] ds[k]));
    assert(forall|k: int| 0 <= k < ds.len() ==> decodes_to(#[trigger] ds[k], deps@[k]));
    let snapshot_dependencies = SnapshotDependencies { build: deps };
    let state = match string_field(j, "state") {
        Some(s) => s,
        None => return None,
    };
    let name = match type_name_field(j) {
        Some(n) => n,
        None => return None,
    };
    let web_url = match string_field(j, "webUrl") {
        Some(u) => u,
        None => return None,
    };
    let build_type = BuildType { name };
    if str_equal(state.as_str(), "queued") {
        return Some(Build::Queued { build_type, web_url, snapshot_dependencies });
    }
    let is_running = str_equal(state.as_str(), "running");
    if !is_running && !str_equal(state.as_str(), "finished") {
        return None;
    }
    let number = match string_field(j, "number") {
        Some(n) => n,
        None => return None,
    };
    let status = match status_field(j) {
        Some(s) => s,
        None => return None,
    };
    let status_text = match string_field(j, "statusText") {
        Some(t) => t,
        None => return None,
    };
    if is_running {
        match running_info_field(j) {
            Some(running_info) => Some(
                Build::Running {
                    build_type,
                    number,
                    status,
                    status_text,
                    web_url,
                    running_info,
                    snapshot_dependencies,
                },
            ),
            None => None,
        }
    } else {
        Some(
            Build::Finished {
                build_type,
                number,
                status,
                status_text,
                web_url,
                snapshot_dependencies,
            },
        )
    }
}

/// A document whose `snapshot-dependencies` member is absent, or holds an
/// empty `build` list, decodes to a build without dependencies.
pub proof fn lemma_no_dependencies(j: Json, b: Build)
    requires
        decodes_to(j, b),
        field(j, "snapshot-dependencies"@) is None || (field(j, "snapshot-dependencies"@) matches Some(d)
            && field(d, "build"@) matches Some(Json::Array(v)) && v@.len() == 0),
    ensures
        b.deps() == Seq::<Build>::empty(),
{
}

/// Whether `b` has a chain of dependencies `n` levels deep below it.
pub open spec fn build_reaches(b: Build, n: nat) -> bool
    decreases n,
{
    n == 0 || exists|i: int|
        0 <= i < b.deps().len() && build_reaches(#[trigger] b.deps()[i], (n - 1) as nat)
}

/// Whether document `j` has a chain of dependency documents `n` levels deep.
pub open spec fn doc_reaches(j: Json, n: nat) -> bool
    decreases n,
{
    n == 0 || (deps_value(j) is Some && exists|i: int|
        0 <= i < deps_value(j)->0.len() && doc_reaches(#[trigger] deps_value(j)->0[i], (n - 1) as nat))
}

/// Decoding keeps the depth of the tree: the build has a dependency chain
/// of any given length exactly when its document has one.
pub proof fn lemma_decode_preserves_depth(j: Json, b: Build, n: nat)
    requires
        decodes_to(j, b),
    ensures
        build_reaches(b, n) == doc_reaches(j, n),
    decreases n,
{
    if n > 0 {
        let ds = deps_value(j)->0;
        assert forall|i: int| 0 <= i < ds.len() implies build_reaches(b.deps()[i], (n - 1) as nat)
            == doc_reaches(ds[i], (n - 1) as nat) by {
            lemma_decode_preserves_depth(ds[i], b.deps()[i], (n - 1) as nat);
        }
        if build_reaches(b, n) {
            let i = choose|i: int|
                0 <= i < b.deps().len() && build_reaches(#[trigger] b.deps()[i], (n - 1) as nat);
            assert(doc_reaches(ds[i], (n - 1) as nat));
        }
        if doc_reaches(j, n) {
            let i = choose|i: int| 0 <= i < ds.len() && doc_reaches(#[trigger] ds[i], (n - 1) as nat);
            assert(build_reaches(b.deps()[i], (n - 1) as nat));
        }
    }
}

} // verus!
