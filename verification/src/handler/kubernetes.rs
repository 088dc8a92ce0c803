//! The decision and shaping logic of the cluster actions: everything the
//! handlers compute before and after the cluster API calls, which the
//! caller performs.

use vstd::prelude::*;

use vstd::string::{StrSliceExecFns, StringExecFns};

use crate::model::kubernetes::{PodInfo, SuccessResponse};
use crate::util::strings::{str_eq, string_push};
use crate::util::time_helper::{format_duration, spec_format_duration};

verus! {

/// The index of the first ':' in `s`, or `s.len()` when there is none.
pub open spec fn spec_first_colon(s: Seq<char>) -> int
    decreases s.len(),
{
    if s.len() == 0 {
        0
    } else if s[0] == ':' {
        0
    } else {
        1 + spec_first_colon(s.drop_first())
    }
}

proof fn lemma_first_colon_at(s: Seq<char>, i: int)
    requires
        0 <= i <= s.len(),
        forall|j: int| 0 <= j < i ==> s[j] != ':',
        i < s.len() ==> s[i] == ':',
    ensures
        spec_first_colon(s) == i,
    decreases i,
{
    if i > 0 {
        lemma_first_colon_at(s.drop_first(), i - 1);
    }
}

fn find_first_colon(s: &str) -> (r: usize)
    ensures
        r as int == spec_first_colon(s@),
        r <= s@.len(),
{
    let n: usize = s.unicode_len();
    let mut i: usize = 0;
    while i < n
        invariant
            i <= n,
            n == s@.len(),
            forall|j: int| 0 <= j < i ==> s@[j] != ':',
        decreases n - i,
    {
        if s.get_char(i) == ':' {
            proof {
                lemma_first_colon_at(s@, i as int);
            }
            return i;
        }
        i = i + 1;
    }
    proof {
        lemma_first_colon_at(s@, n as int);
    }
    n
}

/// The image reference re-tagged: the name up to the first ':' (or the whole
/// reference when it carries no tag), followed by ':' and the new tag.
pub open spec fn spec_normalize_image(image: Seq<char>, tag: Seq<char>) -> Seq<char> {
    image.take(spec_first_colon(image)) + seq![':'] + tag
}

/// Replaces an image reference's tag: "repo/app:old" with tag "v2" becomes
/// "repo/app:v2".
pub fn normalize_image(image: &str, tag: &str) -> (r: String)
    ensures
        r@ == spec_normalize_image(image@, tag@),
{
    let end: usize = find_first_colon(image);
    let name: &str = image.substring_char(0, end);
    let mut out: String = name.to_owned();
    string_push(&mut out, ':');
    out.append(tag);
    proof {
        assert(image@.take(spec_first_colon(image@)) =~= image@.subrange(0, end as int));
    }
    out
}

/// One container's name and optional image reference, as a deployment
/// reports them.
pub struct ContainerImage {
    pub name: String,
    pub image: Option<String>,
}

/// A container's image reference, or the placeholder a missing one gets.
pub open spec fn spec_image_or_default(image: Option<String>) -> Seq<char> {
    match image {
        Some(s) => s@,
        None => "No image specified"@,
    }
}

/// The image to roll out: the first container named `container_name` has
/// its image re-tagged with `version`. `None` when no container carries
/// that name — the rollout then fails.
pub fn deploy_image_for(
    containers: &Vec<ContainerImage>,
    container_name: &str,
    version: &str,
) -> (r: Option<String>)
    ensures
        (r is Some) == (exists|i: int|
            0 <= i < containers@.len() && containers@[i].name@ == container_name@),
        r matches Some(img) ==> exists|i: int|
            {
                &&& 0 <= i < containers@.len()
                &&& containers@[i].name@ == container_name@
                &&& forall|j: int| 0 <= j < i ==> containers@[j].name@ != container_name@
                &&& img@ == spec_normalize_image(
                    spec_image_or_default(containers@[i].image),
                    version@,
                )
            },
{
    let mut i: usize = 0;
    while i < containers.len()
        invariant
            i <= containers@.len(),
            forall|j: int| 0 <= j < i ==> containers@[j].name@ != container_name@,
        decreases containers@.len() - i,
    {
        if str_eq(containers[i].name.as_str(), container_name) {
            let image: &str = match &containers[i].image {
                Some(s) => s.as_str(),
                None => "No image specified",
            };
            let retagged = normalize_image(image, version);
            proof {
                assert(containers@[i as int].name@ == container_name@);
            }
            return Some(retagged);
        }
        i = i + 1;
    }
    None
}

/// The value of an optional field, or the placeholder "Unknown".
pub open spec fn spec_opt_or_unknown(v: Option<String>) -> Seq<char> {
    match v {
        Some(s) => s@,
        None => "Unknown"@,
    }
}

fn opt_or_unknown(v: Option<String>) -> (r: String)
    ensures
        r@ == spec_opt_or_unknown(v),
{
    match v {
        Some(s) => s,
        None => "Unknown".to_owned(),
    }
}

/// Whether a reported rule is one this gateway isolates pods for.
pub open spec fn spec_rule_implemented(rule: Seq<char>) -> bool {
    rule == "network_scan_process_in_container"@
}

/// What an isolation report leads to.
pub enum IsolateAction {
    /// Patch the `isolate` label onto this pod.
    Isolate { namespace: String, pod_name: String },
    /// The reported rule is not acted on; nothing happens.
    Skip,
}

/// Decides what an isolation report leads to. Missing fields fall back to
/// the placeholder "Unknown", as reports are accepted in loose shape; the
/// pod is isolated exactly when the reported rule is one that is acted on.
pub fn isolate_decision(
    namespace: Option<String>,
    pod_name: Option<String>,
    rule: Option<String>,
) -> (r: IsolateAction)
    ensures
        (r matches IsolateAction::Isolate { .. }) == spec_rule_implemented(
            spec_opt_or_unknown(rule),
        ),
        r matches IsolateAction::Isolate { namespace: ns, pod_name: p } ==> ns@
            == spec_opt_or_unknown(namespace) && p@ == spec_opt_or_unknown(pod_name),
{
    let rule_name = opt_or_unknown(rule);
    if str_eq(rule_name.as_str(), "network_scan_process_in_container") {
        IsolateAction::Isolate {
            namespace: opt_or_unknown(namespace),
            pod_name: opt_or_unknown(pod_name),
        }
    } else {
        IsolateAction::Skip
    }
}

/// Shapes one listed pod: a missing name becomes empty, a missing phase
/// becomes "Unknown", and the age in seconds is rendered in the largest
/// fitting unit.
pub fn pod_info(name: Option<String>, phase: Option<String>, age_seconds: i64) -> (r: PodInfo)
    ensures
        name matches Some(s) ==> r.name@ == s@,
        name is None ==> r.name@ == Seq::<char>::empty(),
        phase matches Some(s) ==> r.status@ == s@,
        phase is None ==> r.status@ == "Unknown"@,
        r.age@ == spec_format_duration(age_seconds as int),
{
    let pod_name: String = match name {
        Some(s) => s,
        None => String::new(),
    };
    PodInfo { name: pod_name, status: opt_or_unknown(phase), age: format_duration(age_seconds) }
}

/// The confirmation reported after a deployment restart.
pub fn restart_success(service_deployment: &str) -> (r: SuccessResponse)
    ensures
        r.status@ == "Deployment "@ + service_deployment@ + " restarted"@,
{
    let mut status: String = "Deployment ".to_owned();
    status.append(service_deployment);
    status.append(" restarted");
    SuccessResponse { status }
}

/// The confirmation reported after a deployment's image is rolled out.
pub fn deploy_success(service_deployment: &str) -> (r: SuccessResponse)
    ensures
        r.status@ == "Service "@ + service_deployment@ + " deployed!"@,
{
    let mut status: String = "Service ".to_owned();
    status.append(service_deployment);
    status.append(" deployed!");
    SuccessResponse { status }
}

} // verus!
