//! Discovery: finds the services that a per-host manifest declares among the
//! containers that are running. A host without a manifest discovers nothing.

use vstd::prelude::*;
use crate::command::{Command, CommandOutcome, CommandView, OutcomeView, command, copy_list,
    copy_text, owned_list, plain_command};
use crate::outside::{from_utf8_lossy, lossy_text, lowercase_of, now_rfc3339, to_lowercase,
    utc_stamp};
use crate::text::{contains, has_infix, lines, lines_of, split_at_first, split_once, text_of, texts};

verus! {

/// Where the manifest of a host is mounted.
pub const MANIFEST_PATH: &'static str = "/etc/docker-ops-agent/discovery.toml";

/// A role that the manifest declares.
#[derive(Debug, Clone, PartialEq)]
pub struct ServiceRoleConfig {
    pub role: String,
    pub image_hint: String,
    pub config_candidates: Vec<String>,
    pub reload_command: Vec<String>,
}

/// The roles that a host's manifest declares.
#[derive(Debug, PartialEq)]
pub struct DiscoveryManifest {
    pub services: Vec<ServiceRoleConfig>,
}

/// A declared role that was found running.
#[derive(Debug, Clone, PartialEq)]
pub struct DiscoveredService {
    pub role: String,
    pub container_name: String,
    pub config_path: Option<String>,
    pub reload_command: Vec<String>,
    /// When it was last found, in ISO 8601.
    pub last_confirmed: String,
}

/// What a [`ServiceRoleConfig`] stands for.
pub struct RoleView {
    pub role: Seq<char>,
    pub image_hint: Seq<char>,
    pub config_candidates: Seq<Seq<char>>,
    pub reload_command: Seq<Seq<char>>,
}

impl View for ServiceRoleConfig {
    type V = RoleView;

    open spec fn view(&self) -> RoleView {
        RoleView {
            role: self.role@,
            image_hint: self.image_hint@,
            config_candidates: texts(self.config_candidates@),
            reload_command: texts(self.reload_command@),
        }
    }
}

/// The views of a list of declared roles.
pub open spec fn roles_view(services: Seq<ServiceRoleConfig>) -> Seq<RoleView> {
    Seq::new(services.len(), |i: int| services[i]@)
}

/// What a [`DiscoveredService`] stands for.
pub struct ServiceView {
    pub role: Seq<char>,
    pub container_name: Seq<char>,
    pub config_path: Option<Seq<char>>,
    pub reload_command: Seq<Seq<char>>,
    pub last_confirmed: Seq<char>,
}

impl View for DiscoveredService {
    type V = ServiceView;

    open spec fn view(&self) -> ServiceView {
        ServiceView {
            role: self.role@,
            container_name: self.container_name@,
            config_path: text_of(self.config_path),
            reload_command: texts(self.reload_command@),
            last_confirmed: self.last_confirmed@,
        }
    }
}

/// The views of a list of discovered services.
pub open spec fn services_view(services: Seq<DiscoveredService>) -> Seq<ServiceView> {
    Seq::new(services.len(), |i: int| services[i]@)
}

impl DiscoveredService {
    /// A copy of the service.
    pub fn duplicate(&self) -> (r: DiscoveredService)
        ensures
            r@ == self@,
    {
        DiscoveredService {
            role: self.role.clone(),
            container_name: self.container_name.clone(),
            config_path: copy_text(&self.config_path),
            reload_command: copy_list(&self.reload_command),
            last_confirmed: self.last_confirmed.clone(),
        }
    }
}

impl Default for DiscoveryManifest {
    fn default() -> (r: DiscoveryManifest)
        ensures
            r.services@.len() == 0,
    {
        DiscoveryManifest { services: Vec::new() }
    }
}

/// The manifest to go by, given what was found on disk: nothing (`None`), or a
/// file that could be read as a manifest or not. Without a readable manifest
/// nothing is declared.
pub fn load_manifest(found: Option<Result<DiscoveryManifest, String>>) -> (r: DiscoveryManifest)
    ensures
        match found {
            Some(Ok(m)) => r == m,
            _ => r.services@.len() == 0,
        },
{
    match found {
        Some(Ok(m)) => m,
        _ => DiscoveryManifest::default(),
    }
}

// Which container runs an image.

/// A line of the container listing: the container's name and its image.
#[derive(Debug, PartialEq)]
pub struct Row {
    pub name: String,
    pub image: String,
}

/// The views of the rows of a listing.
pub open spec fn rows_view(rows: Seq<Row>) -> Seq<(Seq<char>, Seq<char>)> {
    Seq::new(rows.len(), |i: int| (rows[i].name@, rows[i].image@))
}

/// The rows of a listing with a name, a tab and an image on each line; lines
/// without a tab are passed over.
pub open spec fn rows_in(list: Seq<Seq<char>>) -> Seq<(Seq<char>, Seq<char>)>
    decreases list.len(),
{
    if list.len() == 0 {
        seq![]
    } else {
        let rest = rows_in(list.drop_last());
        match split_at_first(list.last(), '\t') {
            Some(row) => rest.push(row),
            None => rest,
        }
    }
}

/// The name in the first row whose image, in lower case, holds the hint in lower
/// case.
pub open spec fn running_image(rows: Seq<(Seq<char>, Seq<char>)>, hint: Seq<char>) -> Option<
    Seq<char>,
>
    decreases rows.len(),
{
    if rows.len() == 0 {
        None
    } else if has_infix(lowercase_of(rows[0].1), lowercase_of(hint)) {
        Some(rows[0].0)
    } else {
        running_image(rows.drop_first(), hint)
    }
}

/// The container that runs an image which the hint fits, given the listing of
/// running containers.
pub open spec fn container_for(listing: Seq<char>, hint: Seq<char>) -> Option<Seq<char>> {
    running_image(rows_in(lines_of(listing)), hint)
}

/// The first position at which a lower-case image holds the lower-case hint; the
/// length of the list where none does.
pub open spec fn first_holding(images: Seq<Seq<char>>, hint: Seq<char>) -> int
    decreases images.len(),
{
    if images.len() == 0 || has_infix(images[0], hint) {
        0
    } else {
        1 + first_holding(images.drop_first(), hint)
    }
}

/// The rows of a container listing.
pub fn listing_rows(listing: &str) -> (r: Vec<Row>)
    ensures
        rows_view(r@) == rows_in(lines_of(listing@)),
{
    let list: Vec<String> = lines(listing);
    let n: usize = list.len();
    let mut rows: Vec<Row> = Vec::new();
    let mut i: usize = 0;
    let ghost all = texts(list@);
    proof {
        assert(rows_view(rows@) =~= seq![]);
        assert(all.take(0) =~= seq![]);
    }
    while i < n
        invariant
            n == list@.len(),
            all == texts(list@),
            i <= n,
            rows_view(rows@) == rows_in(all.take(i as int)),
        decreases n - i,
    {
        proof {
            assert(all.take(i + 1).drop_last() =~= all.take(i as int));
            assert(all.take(i + 1).last() == list@[i as int]@);
        }
        let ghost before = rows_view(rows@);
        match split_once(list[i].as_str(), '\t') {
            Some((name, image)) => {
                rows.push(Row { name: name.to_owned(), image: image.to_owned() });
                proof {
                    assert(rows_view(rows@) =~= before.push((name@, image@)));
                }
            },
            None => {},
        }
        i = i + 1;
    }
    proof {
        assert(all.take(n as int) =~= all);
    }
    rows
}

/// The first position at which an image in lower case holds the hint in lower
/// case; the length of the list where none does.
pub fn first_match(images: &Vec<String>, hint: &str) -> (r: usize)
    ensures
        r <= images@.len(),
        r == first_holding(texts(images@), hint@),
{
    let n: usize = images.len();
    let mut i: usize = 0;
    let ghost all = texts(images@);
    proof {
        assert(all.skip(0) =~= all);
    }
    while i < n && !contains(images[i].as_str(), hint)
        invariant
            n == images@.len(),
            all == texts(images@),
            i <= n,
            first_holding(all, hint@) == i + first_holding(all.skip(i as int), hint@),
        decreases n - i,
    {
        proof {
            assert(all.skip(i as int).drop_first() =~= all.skip(i + 1));
        }
        i = i + 1;
    }
    i
}

proof fn lemma_running_image_at(
    rows: Seq<(Seq<char>, Seq<char>)>,
    lowered: Seq<Seq<char>>,
    hint: Seq<char>,
)
    requires
        rows.len() == lowered.len(),
        forall|i: int| 0 <= i < rows.len() ==> #[trigger] lowered[i] == lowercase_of(rows[i].1),
    ensures
        running_image(rows, hint) == {
            let k = first_holding(lowered, lowercase_of(hint));
            if k < rows.len() {
                Some(rows[k].0)
            } else {
                None
            }
        },
        0 <= first_holding(lowered, lowercase_of(hint)) <= rows.len(),
    decreases rows.len(),
{
    if rows.len() > 0 {
        assert(lowered[0] == lowercase_of(rows[0].1));
        if !has_infix(lowered[0], lowercase_of(hint)) {
            let rt = rows.drop_first();
            let lt = lowered.drop_first();
            assert forall|i: int| 0 <= i < rt.len() implies #[trigger] lt[i] == lowercase_of(
                rt[i].1,
            ) by {
                assert(lt[i] == lowered[i + 1]);
            }
            lemma_running_image_at(rt, lt, hint);
        }
    }
}

/// The container that runs an image which the hint fits, given the listing of
/// running containers; upper and lower case count as the same.
pub fn find_container_by_image(listing: &str, image_hint: &str) -> (r: Option<String>)
    ensures
        text_of(r) == container_for(listing@, image_hint@),
{
    let rows: Vec<Row> = listing_rows(listing);
    let hint: String = to_lowercase(image_hint);
    let n: usize = rows.len();
    let mut lowered: Vec<String> = Vec::new();
    let mut i: usize = 0;
    while i < n
        invariant
            n == rows@.len(),
            i <= n,
            lowered@.len() == i,
            forall|k: int|
                0 <= k < i ==> (#[trigger] lowered@[k])@ == lowercase_of(rows@[k].image@),
        decreases n - i,
    {
        lowered.push(to_lowercase(rows[i].image.as_str()));
        i = i + 1;
    }
    let k: usize = first_match(&lowered, hint.as_str());
    proof {
        lemma_running_image_at(rows_view(rows@), texts(lowered@), image_hint@);
    }
    if k < n {
        Some(rows[k].name.clone())
    } else {
        None
    }
}

// A run of discovery, role by role.

/// A run of discovery between two commands.
#[derive(Debug, PartialEq)]
pub struct Discovery {
    /// The declared roles.
    pub services: Vec<ServiceRoleConfig>,
    /// The role that is being looked for.
    pub next: usize,
    /// The container that was found for it, once there is one.
    pub probing: Option<Probe>,
    /// What was found for the roles before it.
    pub found: Vec<DiscoveredService>,
    /// When the run started.
    pub now: String,
}

/// A search for the config file of a container.
#[derive(Debug, PartialEq)]
pub struct Probe {
    pub container: String,
    /// The candidate path that is being tried.
    pub candidate: usize,
}

/// What a [`Discovery`] stands for.
pub struct DiscoveryView {
    pub services: Seq<RoleView>,
    pub next: int,
    pub probing: Option<(Seq<char>, int)>,
    pub found: Seq<ServiceView>,
    pub now: Seq<char>,
}

impl View for Discovery {
    type V = DiscoveryView;

    open spec fn view(&self) -> DiscoveryView {
        DiscoveryView {
            services: roles_view(self.services@),
            next: self.next as int,
            probing: match self.probing {
                Some(p) => Some((p.container@, p.candidate as int)),
                None => None,
            },
            found: services_view(self.found@),
            now: self.now@,
        }
    }
}

/// What to do next in a run of discovery.
#[derive(Debug, PartialEq)]
pub enum DiscoveryStep {
    /// The run is over.
    Done(Vec<DiscoveredService>),
    /// Run the command and go on with its outcome.
    Run(Discovery, Command),
}

/// What a [`DiscoveryStep`] stands for.
pub enum DiscoveryStepView {
    Done(Seq<ServiceView>),
    Run(DiscoveryView, CommandView),
}

impl View for DiscoveryStep {
    type V = DiscoveryStepView;

    open spec fn view(&self) -> DiscoveryStepView {
        match self {
            DiscoveryStep::Done(found) => DiscoveryStepView::Done(services_view(found@)),
            DiscoveryStep::Run(d, c) => DiscoveryStepView::Run(d@, c@),
        }
    }
}

/// The command that lists the running containers with their images.
pub open spec fn listing_command() -> CommandView {
    plain_command("docker"@, seq!["ps"@, "--format"@, "{{.Names}}\t{{.Image}}"@])
}

/// The command that tells whether a container holds a file at `path`.
pub open spec fn probe_command(container: Seq<char>, path: Seq<char>) -> CommandView {
    plain_command("docker"@, seq!["exec"@, container, "test"@, "-f"@, path])
}

impl DiscoveryView {
    /// Whether there is a role to look for and, where a container was found for
    /// it, a candidate path to try.
    pub open spec fn waiting(self) -> bool {
        &&& 0 <= self.next < self.services.len()
        &&& self.probing matches Some((_, k)) ==> 0 <= k
            < self.services[self.next].config_candidates.len()
    }

    /// The command whose outcome the run waits for.
    pub open spec fn wanted(self) -> CommandView {
        match self.probing {
            None => listing_command(),
            Some((container, k)) => probe_command(
                container,
                self.services[self.next].config_candidates[k],
            ),
        }
    }

    /// Goes on to the next role: lists the containers again, or ends the run
    /// where no role is left.
    pub open spec fn advance(self, found: Seq<ServiceView>) -> DiscoveryStepView {
        if self.next + 1 < self.services.len() {
            DiscoveryStepView::Run(
                DiscoveryView { next: self.next + 1, probing: None, found, ..self },
                listing_command(),
            )
        } else {
            DiscoveryStepView::Done(found)
        }
    }

    /// What is recorded of the current role, running in `container`.
    pub open spec fn record(self, container: Seq<char>, path: Option<Seq<char>>) -> ServiceView {
        service_record(self.services[self.next], container, path, self.now)
    }

    /// Tries the candidate path at position `k`, or goes on without a config path
    /// where no candidate is left.
    pub open spec fn probe(self, container: Seq<char>, k: int) -> DiscoveryStepView {
        let candidates = self.services[self.next].config_candidates;
        if k < candidates.len() {
            DiscoveryStepView::Run(
                DiscoveryView { probing: Some((container, k)), ..self },
                probe_command(container, candidates[k]),
            )
        } else {
            self.advance(self.found.push(self.record(container, None)))
        }
    }

    /// What follows the outcome of the command that the run waited for.
    pub open spec fn step(self, outcome: OutcomeView) -> DiscoveryStepView {
        match self.probing {
            None => match listed_container(outcome, self.services[self.next].image_hint) {
                Some(container) => self.probe(container, 0),
                None => self.advance(self.found),
            },
            Some((container, k)) => if outcome.succeeded() {
                let path = self.services[self.next].config_candidates[k];
                self.advance(self.found.push(self.record(container, Some(path))))
            } else {
                self.probe(container, k + 1)
            },
        }
    }
}

/// What is recorded of a role that was found running.
pub open spec fn service_record(
    role: RoleView,
    container: Seq<char>,
    path: Option<Seq<char>>,
    now: Seq<char>,
) -> ServiceView {
    ServiceView {
        role: role.role,
        container_name: container,
        config_path: path,
        reload_command: role.reload_command,
        last_confirmed: now,
    }
}

/// The container for a hint, given what came of listing the containers. What the
/// listing printed counts whether or not it reported success.
pub open spec fn listed_container(outcome: OutcomeView, hint: Seq<char>) -> Option<Seq<char>> {
    match outcome {
        OutcomeView::Exited { stdout, .. } => container_for(lossy_text(stdout), hint),
        _ => None,
    }
}

/// The first step of a run of discovery.
pub open spec fn first_step(services: Seq<RoleView>, now: Seq<char>) -> DiscoveryStepView {
    if services.len() == 0 {
        DiscoveryStepView::Done(seq![])
    } else {
        DiscoveryStepView::Run(
            DiscoveryView { services, next: 0, probing: None, found: seq![], now },
            listing_command(),
        )
    }
}

fn list_containers() -> (r: Command)
    ensures
        r@ == listing_command(),
{
    let args: Vec<String> = owned_list(&vec!["ps", "--format", "{{.Names}}\t{{.Image}}"]);
    proof {
        assert(texts(args@) =~= listing_command().args);
    }
    command("docker", args)
}

fn probe_path(container: &str, path: &str) -> (r: Command)
    ensures
        r@ == probe_command(container@, path@),
{
    let args: Vec<String> = owned_list(&vec!["exec", container, "test", "-f", path]);
    proof {
        assert(texts(args@) =~= probe_command(container@, path@).args);
    }
    command("docker", args)
}

/// Starts a run of discovery at the given time.
pub fn run_discovery_at(manifest: DiscoveryManifest, now: String) -> (r: DiscoveryStep)
    ensures
        r@ == first_step(roles_view(manifest.services@), now@),
{
    let found: Vec<DiscoveredService> = Vec::new();
    proof {
        assert(services_view(found@) =~= seq![]);
    }
    if manifest.services.len() == 0 {
        DiscoveryStep::Done(found)
    } else {
        let d = Discovery { services: manifest.services, next: 0, probing: None, found, now };
        DiscoveryStep::Run(d, list_containers())
    }
}

/// Starts a run of discovery now.
pub fn run_discovery(manifest: DiscoveryManifest) -> (r: DiscoveryStep)
    ensures
        exists|now: Seq<char>|
            utc_stamp(now) && r@ == first_step(roles_view(manifest.services@), now),
{
    let now: String = now_rfc3339();
    proof {
        assert(utc_stamp(now@));
    }
    run_discovery_at(manifest, now)
}

impl Discovery {
    /// Whether there is a role to look for and, where a container was found for
    /// it, a candidate path to try.
    pub fn is_waiting(&self) -> (r: bool)
        ensures
            r == self@.waiting(),
    {
        if self.next >= self.services.len() {
            return false;
        }
        match &self.probing {
            None => true,
            Some(p) => p.candidate < self.services[self.next].config_candidates.len(),
        }
    }

    fn advance(self) -> (r: DiscoveryStep)
        requires
            self.next < self.services@.len(),
        ensures
            r@ == self@.advance(self@.found),
    {
        if self.services.len() - self.next > 1 {
            let d = Discovery { next: self.next + 1, probing: None, ..self };
            DiscoveryStep::Run(d, list_containers())
        } else {
            DiscoveryStep::Done(self.found)
        }
    }

    fn record(self, container: String, path: Option<String>) -> (r: DiscoveryStep)
        requires
            self.next < self.services@.len(),
        ensures
            r@ == self@.advance(self@.found.push(self@.record(container@, text_of(path)))),
    {
        let i: usize = self.next;
        let ghost before = self@;
        let service = DiscoveredService {
            role: self.services[i].role.clone(),
            container_name: container,
            config_path: path,
            reload_command: copy_list(&self.services[i].reload_command),
            last_confirmed: self.now.clone(),
        };
        let mut d = self;
        d.found.push(service);
        proof {
            assert(d@.found =~= before.found.push(service@));
            assert(service@ == before.record(container@, text_of(path)));
        }
        d.advance()
    }

    fn probe(self, container: String, k: usize) -> (r: DiscoveryStep)
        requires
            self.next < self.services@.len(),
            k <= self.services@[self.next as int].config_candidates@.len(),
        ensures
            r@ == self@.probe(container@, k as int),
    {
        let i: usize = self.next;
        if k < self.services[i].config_candidates.len() {
            let c: Command = probe_path(
                container.as_str(),
                self.services[i].config_candidates[k].as_str(),
            );
            let d = Discovery { probing: Some(Probe { container, candidate: k }), ..self };
            DiscoveryStep::Run(d, c)
        } else {
            self.record(container, None)
        }
    }

    /// Goes on with the outcome of the command that the run waited for.
    pub fn resume(self, outcome: &CommandOutcome) -> (r: DiscoveryStep)
        requires
            self@.waiting(),
        ensures
            r@ == self@.step(outcome@),
            r matches DiscoveryStep::Run(d, c) ==> d@.waiting() && c@ == d@.wanted(),
    {
        let i: usize = self.next;
        let n: usize = self.services[i].config_candidates.len();
        let mut d = self;
        let probing = d.probing;
        d.probing = None;
        match probing {
            None => match outcome {
                CommandOutcome::Exited { success, stdout, stderr } => {
                    let listing: String = from_utf8_lossy(stdout.as_slice());
                    match find_container_by_image(
                        listing.as_str(),
                        d.services[i].image_hint.as_str(),
                    ) {
                        Some(container) => d.probe(container, 0),
                        None => d.advance(),
                    }
                },
                _ => d.advance(),
            },
            Some(p) => {
                let ok: bool = match outcome {
                    CommandOutcome::Exited { success, stdout, stderr } => *success,
                    _ => false,
                };
                proof {
                    assert(p.candidate < n);
                }
                if ok {
                    let path: String = d.services[i].config_candidates[p.candidate].clone();
                    d.record(p.container, Some(path))
                } else {
                    d.probe(p.container, p.candidate + 1)
                }
            },
        }
    }
}

// What a whole run finds.

/// What the host answers during a run: the outcome of listing the containers for
/// the role at a position, and of trying one of its candidate paths.
pub struct HostAnswers {
    pub listing: spec_fn(int) -> OutcomeView,
    pub probe: spec_fn(int, int) -> OutcomeView,
}

/// The first candidate path of the role at position `i`, from candidate `k` on,
/// that the host reports to be a file.
pub open spec fn first_file(
    candidates: Seq<Seq<char>>,
    k: int,
    i: int,
    host: HostAnswers,
) -> Option<Seq<char>>
    decreases candidates.len() - k,
{
    if k < 0 || k >= candidates.len() {
        None
    } else if (host.probe)(i, k).succeeded() {
        Some(candidates[k])
    } else {
        first_file(candidates, k + 1, i, host)
    }
}

/// What is recorded of the declared role at position `i`: nothing where no
/// running container fits its hint.
pub open spec fn entry_for(
    services: Seq<RoleView>,
    i: int,
    now: Seq<char>,
    host: HostAnswers,
) -> Option<ServiceView> {
    let role = services[i];
    match listed_container((host.listing)(i), role.image_hint) {
        Some(container) => Some(
            service_record(
                role,
                container,
                first_file(role.config_candidates, 0, i, host),
                now,
            ),
        ),
        None => None,
    }
}

/// What is recorded of the declared roles from position `i` on, in the order in
/// which they are declared.
pub open spec fn entries_from(
    services: Seq<RoleView>,
    i: int,
    now: Seq<char>,
    host: HostAnswers,
) -> Seq<ServiceView>
    decreases services.len() - i,
{
    if i < 0 || i >= services.len() {
        seq![]
    } else {
        let rest = entries_from(services, i + 1, now, host);
        match entry_for(services, i, now, host) {
            Some(entry) => seq![entry] + rest,
            None => rest,
        }
    }
}

impl DiscoveryView {
    /// What the host answers to the command that the run waits for.
    pub open spec fn answer(self, host: HostAnswers) -> OutcomeView {
        match self.probing {
            None => (host.listing)(self.next),
            Some((_, k)) => (host.probe)(self.next, k),
        }
    }

    /// How many more commands the run may need at most for the current role.
    pub open spec fn left_for_role(self) -> int {
        match self.probing {
            None => self.services[self.next].config_candidates.len() as int + 1,
            Some((_, k)) => self.services[self.next].config_candidates.len() - k,
        }
    }
}

/// What a run finds from a step on, with a host that gives the given answers.
pub open spec fn run_from(step: DiscoveryStepView, host: HostAnswers) -> Seq<ServiceView>
    decreases
        (match step {
            DiscoveryStepView::Done(_) => 0,
            DiscoveryStepView::Run(d, _) => d.services.len() - d.next,
        }),
        (match step {
            DiscoveryStepView::Done(_) => 0,
            DiscoveryStepView::Run(d, _) => d.left_for_role(),
        }),
{
    match step {
        DiscoveryStepView::Done(found) => found,
        DiscoveryStepView::Run(d, _) => if d.waiting() {
            run_from(d.step(d.answer(host)), host)
        } else {
            d.found
        },
    }
}

proof fn lemma_run_from(d: DiscoveryView, c: CommandView, host: HostAnswers)
    requires
        d.waiting(),
    ensures
        d.probing is None ==> run_from(DiscoveryStepView::Run(d, c), host) == d.found
            + entries_from(d.services, d.next, d.now, host),
        d.probing matches Some((container, k)) ==> run_from(DiscoveryStepView::Run(d, c), host)
            == d.found.push(
            d.record(
                container,
                first_file(d.services[d.next].config_candidates, k, d.next, host),
            ),
        ) + entries_from(d.services, d.next + 1, d.now, host),
    decreases d.services.len() - d.next, d.left_for_role(),
{
    let step = d.step(d.answer(host));
    let role = d.services[d.next];
    match step {
        DiscoveryStepView::Run(e, ce) => {
            assert(e.waiting());
            lemma_run_from(e, ce, host);
        },
        DiscoveryStepView::Done(_) => {},
    }
    if d.next + 1 >= d.services.len() {
        assert(entries_from(d.services, d.next + 1, d.now, host) =~= seq![]);
    }
    let whole = run_from(DiscoveryStepView::Run(d, c), host);
    assert(whole == run_from(step, host));
    match d.probing {
        None => {
            match listed_container((host.listing)(d.next), role.image_hint) {
                Some(container) => {
                    let entry = d.record(container, first_file(role.config_candidates, 0, d.next, host));
                    assert(entry_for(d.services, d.next, d.now, host) == Some(entry));
                    assert(whole =~= d.found.push(entry) + entries_from(
                        d.services,
                        d.next + 1,
                        d.now,
                        host,
                    ));
                    assert(whole =~= d.found + entries_from(d.services, d.next, d.now, host));
                },
                None => {
                    assert(whole =~= d.found + entries_from(d.services, d.next, d.now, host));
                },
            }
        },
        Some((container, k)) => {
            if !d.answer(host).succeeded() {
                assert(first_file(role.config_candidates, k, d.next, host) == first_file(
                    role.config_candidates,
                    k + 1,
                    d.next,
                    host,
                ));
            }
            let entry = d.record(container, first_file(role.config_candidates, k, d.next, host));
            assert(whole =~= d.found.push(entry) + entries_from(
                d.services,
                d.next + 1,
                d.now,
                host,
            ));
        },
    }
}

/// A run of discovery finds, for each role in the order of the manifest, the
/// first running container whose image fits the role's hint, with the first of
/// the role's candidate paths that is a file there; a role that no running
/// container fits leaves no trace.
pub proof fn law_discovery_finds_declared_and_running(
    services: Seq<RoleView>,
    now: Seq<char>,
    host: HostAnswers,
)
    ensures
        run_from(first_step(services, now), host) == entries_from(services, 0, now, host),
{
    match first_step(services, now) {
        DiscoveryStepView::Run(d, c) => {
            lemma_run_from(d, c, host);
            assert(d.found + entries_from(services, 0, now, host) =~= entries_from(
                services,
                0,
                now,
                host,
            ));
        },
        DiscoveryStepView::Done(_) => {},
    }
}

/// Every service that a run of discovery records belongs to a declared role that
/// a running container was found for: it has that role's name and reload
/// command, the time of the run, and a config path only from the role's
/// candidates.
pub proof fn law_discovered_services_are_declared(
    services: Seq<RoleView>,
    now: Seq<char>,
    host: HostAnswers,
    i: int,
)
    requires
        0 <= i < entries_from(services, 0, now, host).len(),
    ensures
        ({
            let s = entries_from(services, 0, now, host)[i];
            exists|j: int|
                #![trigger services[j]]
                0 <= j < services.len() && s.role == services[j].role && s.reload_command
                    == services[j].reload_command && s.last_confirmed == now && listed_container(
                    (host.listing)(j),
                    services[j].image_hint,
                ) == Some(s.container_name) && (s.config_path matches Some(p)
                    ==> services[j].config_candidates.contains(p))
        }),
{
    lemma_entries_declared(services, 0, now, host, i);
}

proof fn lemma_first_file_is_candidate(
    candidates: Seq<Seq<char>>,
    k: int,
    i: int,
    host: HostAnswers,
)
    requires
        0 <= k,
    ensures
        first_file(candidates, k, i, host) matches Some(p) ==> candidates.contains(p),
    decreases candidates.len() - k,
{
    if k < candidates.len() && !(host.probe)(i, k).succeeded() {
        lemma_first_file_is_candidate(candidates, k + 1, i, host);
    }
}

proof fn lemma_entries_declared(
    services: Seq<RoleView>,
    from: int,
    now: Seq<char>,
    host: HostAnswers,
    i: int,
)
    requires
        0 <= from,
        0 <= i < entries_from(services, from, now, host).len(),
    ensures
        ({
            let s = entries_from(services, from, now, host)[i];
            exists|j: int|
                #![trigger services[j]]
                0 <= j < services.len() && s.role == services[j].role && s.reload_command
                    == services[j].reload_command && s.last_confirmed == now && listed_container(
                    (host.listing)(j),
                    services[j].image_hint,
                ) == Some(s.container_name) && (s.config_path matches Some(p)
                    ==> services[j].config_candidates.contains(p))
        }),
    decreases services.len() - from,
{
    let all = entries_from(services, from, now, host);
    let rest = entries_from(services, from + 1, now, host);
    match entry_for(services, from, now, host) {
        Some(entry) => {
            assert(all == seq![entry] + rest);
            if i == 0 {
                lemma_first_file_is_candidate(services[from].config_candidates, 0, from, host);
                assert(all[0] == entry);
            } else {
                assert(all[i] == rest[i - 1]);
                lemma_entries_declared(services, from + 1, now, host, i - 1);
            }
        },
        None => {
            lemma_entries_declared(services, from + 1, now, host, i);
        },
    }
}

} // verus!
