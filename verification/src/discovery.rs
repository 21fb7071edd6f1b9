//! Service discovery: what a server advertises about itself, and how a
//! client picks, among the instances it has resolved, the ones it was asked
//! for.

use vstd::prelude::*;
use std::time::Duration;
use crate::cli_args::{duration_from_millis, spec_duration_of_millis, DiscoveryArgs};

verus! {

/// The service type under which servers are advertised.
pub const MDNS_SERVICE_NAME: &'static str = "_unity-cli._tcp.local.";

/// The key of the property that holds the project's path.
pub const PROJECT_PATH_PROP_KEY: &'static str = "project-path";

/// The key of the property that holds the project's name.
pub const PROJECT_NAME_PROP_KEY: &'static str = "project-name";

/// The key of the property that holds the version of the application.
pub const UNITY_VERSION_PROP_KEY: &'static str = "unity-version";

/// For how many milliseconds a search goes on where no timeout was asked for.
pub const DEFAULT_DISCOVERY_TIMEOUT_MILLIS: u64 = 100;

/// For how long a search goes on: as long as was asked for, and for the
/// default time otherwise.
pub fn discovery_timeout(asked: Option<Duration>) -> (timeout: Duration)
    ensures
        timeout == match asked {
            Some(duration) => duration,
            None => spec_duration_of_millis(DEFAULT_DISCOVERY_TIMEOUT_MILLIS),
        },
{
    match asked {
        Some(duration) => duration,
        None => duration_from_millis(DEFAULT_DISCOVERY_TIMEOUT_MILLIS),
    }
}

/// `text` with every occurrence of `pattern` replaced by `with`, the
/// occurrences being found from left to right and never overlapping.
pub open spec fn spec_replace(text: Seq<char>, pattern: Seq<char>, with: Seq<char>) -> Seq<char>
    decreases text.len(),
{
    if pattern.len() == 0 || text.len() < pattern.len() {
        text
    } else if text.subrange(0, pattern.len() as int) == pattern {
        with + spec_replace(text.skip(pattern.len() as int), pattern, with)
    } else {
        seq![text[0]] + spec_replace(text.skip(1), pattern, with)
    }
}

/// Replaces every occurrence of `pattern` in `text`.
///
/// Calls `str::replace`. The contract claims that the matches of a pattern
/// that is not empty are found from left to right without overlap, and that
/// each is replaced by `with`.
#[verifier::external_body]
fn text_replace(text: &str, pattern: &str, with: &str) -> (replaced: String)
    requires
        pattern@.len() > 0,
    ensures
        replaced@ == spec_replace(text@, pattern@, with@),
{
    text.replace(pattern, with)
}

/// Whether `text` begins with `prefix`.
///
/// Calls `str::starts_with`. The contract claims that the answer is true
/// exactly if the first characters of `text` are those of `prefix`.
#[verifier::external_body]
fn text_starts_with(text: &str, prefix: &str) -> (answer: bool)
    ensures
        answer == prefix@.is_prefix_of(text@),
{
    text.starts_with(prefix)
}

/// What a server publishes about itself when it starts.
#[derive(Debug, Clone, PartialEq, Eq)]
pub struct Advertisement {
    pub service_type: String,
    pub instance_name: String,
    pub host_name: String,
    pub port: u16,
    /// The text properties, as pairs of key and value.
    pub properties: Vec<(String, String)>,
}

/// What an `Advertisement` holds, as mathematical values.
pub struct AdvertisementView {
    pub service_type: Seq<char>,
    pub instance_name: Seq<char>,
    pub host_name: Seq<char>,
    pub port: u16,
    pub properties: Seq<(Seq<char>, Seq<char>)>,
}

impl View for Advertisement {
    type V = AdvertisementView;

    open spec fn view(&self) -> AdvertisementView {
        AdvertisementView {
            service_type: self.service_type@,
            instance_name: self.instance_name@,
            host_name: self.host_name@,
            port: self.port,
            properties: Seq::new(
                self.properties@.len(),
                |i: int| (self.properties@[i].0@, self.properties@[i].1@),
            ),
        }
    }
}

impl Advertisement {
    /// The advertisement of a server that listens on `port`: the service
    /// type of all servers, the instance and host names as given, and the
    /// project's path, its name and the version of the application under
    /// their three keys, in that order.
    pub fn new(
        instance_name: String,
        host_name: String,
        port: u16,
        project_path: String,
        project_name: String,
        unity_version: String,
    ) -> (advertisement: Advertisement)
        ensures
            advertisement@ == (AdvertisementView {
                service_type: MDNS_SERVICE_NAME@,
                instance_name: instance_name@,
                host_name: host_name@,
                port,
                properties: seq![
                    (PROJECT_PATH_PROP_KEY@, project_path@),
                    (PROJECT_NAME_PROP_KEY@, project_name@),
                    (UNITY_VERSION_PROP_KEY@, unity_version@),
                ],
            }),
    {
        let mut properties: Vec<(String, String)> = Vec::new();
        properties.push((PROJECT_PATH_PROP_KEY.to_owned(), project_path));
        properties.push((PROJECT_NAME_PROP_KEY.to_owned(), project_name));
        properties.push((UNITY_VERSION_PROP_KEY.to_owned(), unity_version));
        let advertisement = Advertisement {
            service_type: MDNS_SERVICE_NAME.to_owned(),
            instance_name,
            host_name,
            port,
            properties,
        };
        assert(advertisement@.properties =~= seq![
            (PROJECT_PATH_PROP_KEY@, project_path@),
            (PROJECT_NAME_PROP_KEY@, project_name@),
            (UNITY_VERSION_PROP_KEY@, unity_version@),
        ]);
        advertisement
    }
}

/// What a resolver reports of one advertised instance.
#[derive(Debug, Clone, PartialEq, Eq)]
pub struct ResolvedService {
    /// The instance name followed by the service type.
    pub fullname: String,
    pub hostname: String,
    /// One of the addresses of the host, if it has any.
    pub address: Option<[u8; 4]>,
    pub port: u16,
    /// The value of the property `project-path`, if it is there.
    pub project_path: Option<String>,
    /// The value of the property `project-name`, if it is there.
    pub project_name: Option<String>,
    /// The value of the property `unity-version`, if it is there.
    pub unity_version: Option<String>,
}

/// A server that a client can connect to.
#[derive(Debug, Clone, PartialEq, Eq)]
pub struct UnityService {
    pub address: [u8; 4],
    pub port: u16,
    pub hostname: String,
    pub path: String,
    pub project: String,
    pub unity_version: String,
    pub session_name: String,
}

/// What a `UnityService` holds, as mathematical values.
pub struct UnityServiceView {
    pub address: [u8; 4],
    pub port: u16,
    pub hostname: Seq<char>,
    pub path: Seq<char>,
    pub project: Seq<char>,
    pub unity_version: Seq<char>,
    pub session_name: Seq<char>,
}

impl View for UnityService {
    type V = UnityServiceView;

    open spec fn view(&self) -> UnityServiceView {
        UnityServiceView {
            address: self.address,
            port: self.port,
            hostname: self.hostname@,
            path: self.path@,
            project: self.project@,
            unity_version: self.unity_version@,
            session_name: self.session_name@,
        }
    }
}

/// What the file system says of the path that was asked for and of the path
/// that an instance advertises.
#[derive(Debug, Clone, Copy, PartialEq, Eq)]
pub enum PathCheck {
    /// One of the two paths cannot be resolved.
    Unresolved,
    /// Both resolve to the same place.
    Same,
    /// They resolve to different places.
    Different,
}

/// The server that a resolved instance describes, if the instance has an
/// address and all three properties. Its session name is the full name
/// without the service type.
pub open spec fn spec_service(info: ResolvedService) -> Option<UnityServiceView> {
    if info.address is None || info.project_path is None || info.project_name is None
        || info.unity_version is None {
        None
    } else {
        Some(
            UnityServiceView {
                address: info.address.unwrap(),
                port: info.port,
                hostname: info.hostname@,
                path: info.project_path.unwrap()@,
                project: info.project_name.unwrap()@,
                unity_version: info.unity_version.unwrap()@,
                session_name: spec_replace(info.fullname@, MDNS_SERVICE_NAME@, Seq::empty()),
            },
        )
    }
}

/// Whether a server passes the filters, and if so whether it is an exact
/// match. `None` is a server that does not pass.
///
/// A path that was asked for decides alone wherever both paths resolve: the
/// same place is an exact match, another place is no match. Otherwise a
/// project name that was asked for decides alone: the server's project must
/// begin with it, and is an exact match if it is equal. Otherwise a session
/// name that was asked for decides in the same way. With no filter every
/// server passes, none of them exactly.
pub open spec fn spec_verdict(
    service: UnityServiceView,
    args: DiscoveryArgs,
    path_check: PathCheck,
) -> Option<bool> {
    if args.path is Some && path_check != PathCheck::Unresolved {
        if path_check == PathCheck::Same {
            Some(true)
        } else {
            None
        }
    } else if args.project is Some {
        let wanted = args.project.unwrap()@;
        if wanted.is_prefix_of(service.project) {
            Some(service.project == wanted)
        } else {
            None
        }
    } else if args.session is Some {
        let wanted = args.session.unwrap()@;
        if wanted.is_prefix_of(service.session_name) {
            Some(service.session_name == wanted)
        } else {
            None
        }
    } else {
        Some(false)
    }
}

/// The outcome of filtering one resolved instance: the server it describes
/// and whether it matches exactly, or `None` if it is incomplete or does not
/// pass the filters.
pub open spec fn spec_filter_service(
    info: ResolvedService,
    args: DiscoveryArgs,
    path_check: PathCheck,
) -> Option<(bool, UnityServiceView)> {
    match spec_service(info) {
        None => None,
        Some(service) => match spec_verdict(service, args, path_check) {
            None => None,
            Some(exact) => Some((exact, service)),
        },
    }
}

/// Filters one resolved instance by the discovery arguments. `path_check`
/// is what the file system says of the path in `args` and the path that the
/// instance advertises; it is not looked at unless `args` holds a path.
pub fn filter_service(info: &ResolvedService, args: &DiscoveryArgs, path_check: PathCheck) -> (found:
    Option<(bool, UnityService)>)
    ensures
        match spec_filter_service(*info, *args, path_check) {
            Some((exact, service)) => found matches Some((is_exact, candidate)) && is_exact
                == exact && candidate@ == service,
            None => found is None,
        },
{
    let address = match info.address {
        Some(address) => address,
        None => {
            return None;
        },
    };
    let path = match &info.project_path {
        Some(path) => path.clone(),
        None => {
            return None;
        },
    };
    let project = match &info.project_name {
        Some(project) => project.clone(),
        None => {
            return None;
        },
    };
    let unity_version = match &info.unity_version {
        Some(unity_version) => unity_version.clone(),
        None => {
            return None;
        },
    };
    proof {
        reveal_strlit("_unity-cli._tcp.local.");
        reveal_strlit("");
    }
    let session_name = text_replace(info.fullname.as_str(), MDNS_SERVICE_NAME, "");
    let service = UnityService {
        address,
        port: info.port,
        hostname: info.hostname.clone(),
        path,
        project,
        unity_version,
        session_name,
    };
    assert(""@ =~= Seq::<char>::empty());

    if args.path.is_some() {
        match path_check {
            PathCheck::Same => {
                return Some((true, service));
            },
            PathCheck::Different => {
                return None;
            },
            PathCheck::Unresolved => {},
        }
    }
    if let Some(project_arg) = &args.project {
        if !text_starts_with(service.project.as_str(), project_arg.as_str()) {
            return None;
        } else {
            let exact = service.project == *project_arg;
            return Some((exact, service));
        }
    }
    if let Some(session_arg) = &args.session {
        if !text_starts_with(service.session_name.as_str(), session_arg.as_str()) {
            return None;
        } else {
            let exact = service.session_name == *session_arg;
            return Some((exact, service));
        }
    }
    Some((false, service))
}

/// What a list of servers holds, as mathematical values.
pub open spec fn services_view(services: Seq<UnityService>) -> Seq<UnityServiceView> {
    Seq::new(services.len(), |i: int| services[i]@)
}

/// The state of a search after one more outcome of filtering. Once an exact
/// match has been found the search is decided and nothing changes it. Until
/// then an exact match replaces all that was found before and decides the
/// search, a server that passes inexactly is added behind the others, and an
/// instance that does not pass is left out.
pub open spec fn spec_offer(
    found: (Seq<UnityServiceView>, bool),
    outcome: Option<(bool, UnityServiceView)>,
) -> (Seq<UnityServiceView>, bool) {
    if found.1 {
        found
    } else {
        match outcome {
            Some((exact, service)) => if exact {
                (seq![service], true)
            } else {
                (found.0.push(service), false)
            },
            None => found,
        }
    }
}

/// The state of a search after the outcomes of `outcomes`, in order.
pub open spec fn spec_collect(outcomes: Seq<Option<(bool, UnityServiceView)>>) -> (
    Seq<UnityServiceView>,
    bool,
)
    decreases outcomes.len(),
{
    if outcomes.len() == 0 {
        (Seq::empty(), false)
    } else {
        spec_offer(spec_collect(outcomes.drop_last()), outcomes.last())
    }
}

/// The outcomes of filtering each of `resolved` by `args`, in order.
pub open spec fn spec_outcomes(resolved: Seq<(ResolvedService, PathCheck)>, args: DiscoveryArgs)
    -> Seq<Option<(bool, UnityServiceView)>> {
    Seq::new(resolved.len(), |i: int| spec_filter_service(resolved[i].0, args, resolved[i].1))
}

/// The servers that pass inexactly among `outcomes`, in order.
pub open spec fn spec_inexact(outcomes: Seq<Option<(bool, UnityServiceView)>>) -> Seq<
    UnityServiceView,
>
    decreases outcomes.len(),
{
    if outcomes.len() == 0 {
        Seq::empty()
    } else {
        match outcomes.last() {
            Some((false, service)) => spec_inexact(outcomes.drop_last()).push(service),
            _ => spec_inexact(outcomes.drop_last()),
        }
    }
}

/// Whether the outcome is an exact match.
pub open spec fn spec_is_exact(outcome: Option<(bool, UnityServiceView)>) -> bool {
    outcome matches Some((exact, _)) && exact
}

/// A search never picks among inexact matches. If no instance matches
/// exactly, every server that passes is in the result, in the order in which
/// it was resolved, and the search stays undecided. If one does, the first
/// such server is the whole result.
pub proof fn lemma_collect(outcomes: Seq<Option<(bool, UnityServiceView)>>)
    ensures
        (forall|i: int| 0 <= i < outcomes.len() ==> !spec_is_exact(#[trigger] outcomes[i]))
            ==> spec_collect(outcomes) == (spec_inexact(outcomes), false),
        forall|i: int|
            0 <= i < outcomes.len() && spec_is_exact(#[trigger] outcomes[i]) && (forall|j: int|
                0 <= j < i ==> !spec_is_exact(#[trigger] outcomes[j])) ==> spec_collect(outcomes)
                == (seq![outcomes[i].unwrap().1], true),
    decreases outcomes.len(),
{
    if outcomes.len() > 0 {
        let front = outcomes.drop_last();
        lemma_collect(front);
        assert forall|i: int| 0 <= i < front.len() implies front[i] == outcomes[i] by {}
    }
}

/// The servers found so far by a search.
pub struct Candidates {
    services: Vec<UnityService>,
    decided: bool,
}

impl View for Candidates {
    type V = (Seq<UnityServiceView>, bool);

    closed spec fn view(&self) -> (Seq<UnityServiceView>, bool) {
        (services_view(self.services@), self.decided)
    }
}

impl Candidates {
    /// A search that has found nothing yet.
    pub fn new() -> (candidates: Candidates)
        ensures
            candidates@ == (Seq::<UnityServiceView>::empty(), false),
    {
        let candidates = Candidates { services: Vec::new(), decided: false };
        candidates
    }

    /// Takes the outcome of filtering one more instance, and says whether
    /// the search is decided: then there is no need to wait for more.
    pub fn offer(&mut self, outcome: Option<(bool, UnityService)>) -> (decided: bool)
        ensures
            final(self)@ == spec_offer(
                old(self)@,
                match outcome {
                    Some((exact, service)) => Some((exact, service@)),
                    None => None,
                },
            ),
            decided == final(self)@.1,
    {
        if !self.decided {
            match outcome {
                Some((exact, service)) => {
                    if exact {
                        let mut only: Vec<UnityService> = Vec::new();
                        only.push(service);
                        self.services = only;
                        self.decided = true;
                    } else {
                        self.services.push(service);
                    }
                },
                None => {},
            }
        }
        self.decided
    }

    /// Whether an exact match has been found.
    pub fn is_decided(&self) -> (decided: bool)
        ensures
            decided == self@.1,
    {
        self.decided
    }

    /// The servers that were found.
    pub fn into_services(self) -> (services: Vec<UnityService>)
        ensures
            services_view(services@) == self@.0,
    {
        self.services
    }
}

/// Picks among the resolved instances the servers that `args` asks for. Each
/// instance comes with what the file system says of its path. The result is
/// the first exact match alone, if there is one, and every server that passes
/// the filters otherwise.
pub fn discover_service(resolved: &Vec<(ResolvedService, PathCheck)>, args: &DiscoveryArgs) -> (services:
    Vec<UnityService>)
    ensures
        services_view(services@) == spec_collect(spec_outcomes(resolved@, *args)).0,
{
    let ghost outcomes = spec_outcomes(resolved@, *args);
    let mut candidates = Candidates::new();
    let mut i: usize = 0;
    while i < resolved.len()
        invariant
            i <= resolved@.len(),
            outcomes == spec_outcomes(resolved@, *args),
            candidates@ == spec_collect(outcomes.take(i as int)),
        decreases resolved@.len() - i,
    {
        let outcome = filter_service(&resolved[i].0, args, resolved[i].1);
        proof {
            let next = outcomes.take(i + 1);
            assert(next.drop_last() =~= outcomes.take(i as int));
        }
        candidates.offer(outcome);
        i += 1;
    }
    assert(outcomes.take(i as int) =~= outcomes);
    candidates.into_services()
}

/// What a search leaves a client with.
#[derive(Debug, Clone, PartialEq, Eq)]
pub enum Selection {
    /// No server was found.
    NotFound,
    /// Exactly one server was found: the one to connect to.
    Single(UnityService),
    /// Several servers were found. None is picked: all of them are handed
    /// back, in the order in which they were found, for the user to choose.
    Ambiguous(Vec<UnityService>),
}

/// Says what a search that found `services` leaves a client with: nothing,
/// the one server to connect to, or an ambiguity. Among several servers none
/// is picked.
pub fn select(services: Vec<UnityService>) -> (selection: Selection)
    ensures
        match selection {
            Selection::NotFound => services@.len() == 0,
            Selection::Single(service) => services@.len() == 1 && service == services@[0],
            Selection::Ambiguous(all) => services@.len() > 1 && all == services,
        },
{
    let mut services = services;
    if services.len() == 0 {
        Selection::NotFound
    } else if services.len() == 1 {
        match services.pop() {
            Some(service) => Selection::Single(service),
            None => Selection::NotFound,
        }
    } else {
        Selection::Ambiguous(services)
    }
}

} // verus!
