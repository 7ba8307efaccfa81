//! The state that all requests share.
//!
//! `AppState` holds three layers of the configuration: the layer of the
//! environment, which never changes; the layer of the admin overrides, behind
//! a reader-writer lock; and the queue of one-off rules, behind a mutex. Each
//! operation takes the lock that it needs, works on what the lock guards, and
//! gives the lock back before it returns.
//!
//! What an operation does to the guarded value is a function of its own, on
//! plain values and with an exact contract. Of the operations on `AppState`
//! the contracts say what holds whatever the other requests have done.

use crate::matcher::{matches_request, request_matches, RequestContext, RequestView};
use crate::settings::{LayerView, Settings, SettingsLayer, SettingsView};
use crate::text::{chars_of, equal_ignoring_case, lemma_lowercase_of_lower, lowercase};
use parking_lot::lock_api;
use parking_lot::{
    Mutex, MutexGuard, RawMutex, RawRwLock, RwLock, RwLockReadGuard, RwLockWriteGuard,
};
use std::collections::VecDeque;
use uuid::Uuid;
use vstd::prelude::*;

verus! {

/// `uuid::Uuid`: the identifier of a rule. Nothing is read of it.
#[verifier::external_type_specification]
#[verifier::external_body]
pub struct ExUuid(Uuid);

/// `parking_lot::RawMutex`: the lock inside a `parking_lot::Mutex`.
#[verifier::external_type_specification]
#[verifier::external_body]
pub struct ExRawMutex(RawMutex);

/// `parking_lot::RawRwLock`: the lock inside a `parking_lot::RwLock`.
#[verifier::external_type_specification]
#[verifier::external_body]
pub struct ExRawRwLock(RawRwLock);

/// `lock_api::Mutex`, which `parking_lot::Mutex` is: a value behind a
/// mutex. What it guards is reached through its guard only.
#[verifier::external_type_specification]
#[verifier::external_body]
#[verifier::reject_recursive_types(R)]
#[verifier::reject_recursive_types(T)]
pub struct ExMutex<R, T: ?Sized>(lock_api::Mutex<R, T>);

/// `lock_api::RwLock`, which `parking_lot::RwLock` is: a value behind a
/// reader-writer lock. What it guards is reached through its guards only.
#[verifier::external_type_specification]
#[verifier::external_body]
#[verifier::reject_recursive_types(R)]
#[verifier::reject_recursive_types(T)]
pub struct ExRwLock<R, T: ?Sized>(lock_api::RwLock<R, T>);

/// A rule that applies to one request only: the first that matches it.
pub struct OneOffRule {
    pub id: Uuid,
    pub settings: Settings,
}

/// What a `OneOffRule` holds.
pub struct RuleView {
    pub id: Uuid,
    pub settings: SettingsView,
}

impl View for OneOffRule {
    type V = RuleView;

    open spec fn view(&self) -> RuleView {
        RuleView { id: self.id, settings: self.settings@ }
    }
}

/// The rules of a queue, from front to back.
pub open spec fn queue_view(queue: Seq<OneOffRule>) -> Seq<RuleView> {
    queue.map_values(|rule: OneOffRule| rule@)
}

/// The settings of the admin snapshot: the initial settings, then the layer
/// of the environment, then the admin overrides.
pub open spec fn snapshot(env: LayerView, admin: LayerView) -> SettingsView {
    SettingsView::initial().with_layer(env).with_layer(admin)
}

/// `settings` with the destination `destination` in place of its own.
pub open spec fn with_destination(
    settings: SettingsView,
    destination: Option<Seq<char>>,
) -> SettingsView {
    SettingsView { destination_url: destination, ..settings }
}

/// Whether `rule` matches the request once it borrows `destination`.
pub open spec fn rule_matches(
    rule: RuleView,
    ctx: RequestView,
    destination: Option<Seq<char>>,
) -> bool {
    request_matches(ctx, with_destination(rule.settings, destination))
}

/// The index of the first of `rules`, from `from` on, that matches.
pub open spec fn first_match_from(
    rules: Seq<RuleView>,
    ctx: RequestView,
    destination: Option<Seq<char>>,
    from: int,
) -> Option<int>
    decreases rules.len() - from,
{
    if from < 0 || from >= rules.len() {
        None
    } else if rule_matches(rules[from], ctx, destination) {
        Some(from)
    } else {
        first_match_from(rules, ctx, destination, from + 1)
    }
}

/// The index of the first of `rules` that matches.
pub open spec fn first_match(
    rules: Seq<RuleView>,
    ctx: RequestView,
    destination: Option<Seq<char>>,
) -> Option<int> {
    first_match_from(rules, ctx, destination, 0)
}

/// The queue after a request with the settings `current` has passed: the
/// first rule that matches has left it.
pub open spec fn queue_after(rules: Seq<RuleView>, ctx: RequestView, current: SettingsView) -> Seq<
    RuleView,
> {
    match first_match(rules, ctx, current.destination_url) {
        Some(at) => rules.remove(at),
        None => rules,
    }
}

/// The settings of a request with the settings `current` after the queue:
/// those of the first rule that matches, with the destination of `current`,
/// or `current` itself where none matches.
pub open spec fn settings_after(
    rules: Seq<RuleView>,
    ctx: RequestView,
    current: SettingsView,
) -> SettingsView {
    match first_match(rules, ctx, current.destination_url) {
        Some(at) => with_destination(rules[at].settings, current.destination_url),
        None => current,
    }
}

/// How many of `rules` match.
pub open spec fn matching_rules(
    rules: Seq<RuleView>,
    ctx: RequestView,
    destination: Option<Seq<char>>,
) -> nat
    decreases rules.len(),
{
    if rules.len() == 0 {
        0
    } else {
        matching_rules(rules.drop_last(), ctx, destination) + if rule_matches(
            rules.last(),
            ctx,
            destination,
        ) {
            1nat
        } else {
            0nat
        }
    }
}

/// What `first_match_from` finds matches, and nothing between `from` and it
/// does; where it finds nothing, nothing from `from` on matches.
pub proof fn lemma_first_match(
    rules: Seq<RuleView>,
    ctx: RequestView,
    destination: Option<Seq<char>>,
    from: int,
)
    requires
        0 <= from,
    ensures
        match first_match_from(rules, ctx, destination, from) {
            Some(at) => {
                &&& from <= at < rules.len()
                &&& rule_matches(rules[at], ctx, destination)
                &&& forall|j: int| from <= j < at ==> !rule_matches(rules[j], ctx, destination)
            },
            None => forall|j: int|
                from <= j < rules.len() ==> !rule_matches(rules[j], ctx, destination),
        },
    decreases rules.len() - from,
{
    if from < rules.len() && !rule_matches(rules[from], ctx, destination) {
        lemma_first_match(rules, ctx, destination, from + 1);
    }
}

/// Taking a rule out of a queue lowers the number of matching rules by one
/// where the rule matches, and leaves it otherwise.
pub proof fn lemma_matching_rules_remove(
    rules: Seq<RuleView>,
    ctx: RequestView,
    destination: Option<Seq<char>>,
    at: int,
)
    requires
        0 <= at < rules.len(),
    ensures
        matching_rules(rules, ctx, destination) == matching_rules(
            rules.remove(at),
            ctx,
            destination,
        ) + if rule_matches(rules[at], ctx, destination) {
            1nat
        } else {
            0nat
        },
    decreases rules.len(),
{
    if at == rules.len() - 1 {
        assert(rules.remove(at) == rules.drop_last());
    } else {
        lemma_matching_rules_remove(rules.drop_last(), ctx, destination, at);
        assert(rules.remove(at).drop_last() == rules.drop_last().remove(at));
        assert(rules.remove(at).last() == rules.last());
    }
}

/// Where no rule matches, the queue finds none.
pub proof fn lemma_no_match(rules: Seq<RuleView>, ctx: RequestView, destination: Option<Seq<char>>)
    ensures
        matching_rules(rules, ctx, destination) == 0 <==> first_match(rules, ctx, destination)
            is None,
    decreases rules.len(),
{
    lemma_first_match(rules, ctx, destination, 0);
    if rules.len() > 0 {
        lemma_no_match(rules.drop_last(), ctx, destination);
        lemma_first_match(rules.drop_last(), ctx, destination, 0);
        match first_match(rules.drop_last(), ctx, destination) {
            Some(at) => {
                assert(rules.drop_last()[at] == rules[at]);
            },
            None => {
                assert forall|j: int| 0 <= j < rules.len() - 1 implies !rule_matches(
                    rules[j],
                    ctx,
                    destination,
                ) by {
                    assert(rules.drop_last()[j] == rules[j]);
                }
            },
        }
    }
}

/// A one-off rule is applied at most once. A request takes at most one rule
/// out of the queue, the one whose settings it gets, and each rule that is
/// taken lowers the number of rules that match by one: a queue in which one
/// rule matches a request gives that rule to the first such request, and
/// leaves the settings of the next one as they are.
pub proof fn lemma_rule_consumed_once(rules: Seq<RuleView>, ctx: RequestView, current: SettingsView)
    ensures
        match first_match(rules, ctx, current.destination_url) {
            Some(at) => {
                &&& queue_after(rules, ctx, current).len() == rules.len() - 1
                &&& matching_rules(queue_after(rules, ctx, current), ctx, current.destination_url)
                    == matching_rules(rules, ctx, current.destination_url) - 1
            },
            None => queue_after(rules, ctx, current) == rules,
        },
        matching_rules(rules, ctx, current.destination_url) == 1 ==> {
            let rest = queue_after(rules, ctx, current);
            &&& settings_after(rest, ctx, current) == current
            &&& queue_after(rest, ctx, current) == rest
        },
{
    let destination = current.destination_url;
    lemma_first_match(rules, ctx, destination, 0);
    lemma_no_match(rules, ctx, destination);
    match first_match(rules, ctx, destination) {
        Some(at) => {
            lemma_matching_rules_remove(rules, ctx, destination, at);
            lemma_no_match(rules.remove(at), ctx, destination);
        },
        None => {},
    }
}

/// A reset forgets what was merged before it: the snapshot after a reset is
/// that of the new layer alone, whatever the overrides were.
pub proof fn lemma_reset_discards(
    env: LayerView,
    before: LayerView,
    merged: LayerView,
    layer: LayerView,
)
    ensures
        snapshot(env, reset_overrides(before.merged(merged), layer)) == snapshot(env, layer),
        snapshot(env, reset_overrides(before, layer)) == snapshot(env, layer),
{
}

/// The admin overrides after a reset with `layer`.
pub open spec fn reset_overrides(admin: LayerView, layer: LayerView) -> LayerView {
    layer
}

/// The admin snapshot: the initial settings with the layer of the
/// environment and then the admin overrides applied.
pub fn snapshot_of(env: &SettingsLayer, admin: &SettingsLayer) -> (settings: Settings)
    ensures
        settings@ == snapshot(env@, admin@),
{
    let mut settings = Settings::default();
    settings.apply_layer(env);
    settings.apply_layer(admin);
    settings
}

/// Replaces the admin overrides by `layer`.
pub fn reset_layer(admin: &mut SettingsLayer, layer: SettingsLayer)
    ensures
        final(admin)@ == reset_overrides(old(admin)@, layer@),
{
    *admin = layer;
}

/// Puts a rule with the identifier `id` and with `settings` at the back of
/// the queue. The rule has no destination of its own.
pub fn enqueue_rule(queue: &mut VecDeque<OneOffRule>, id: Uuid, settings: Settings)
    ensures
        queue_view(final(queue)@) == queue_view(old(queue)@).push(
            RuleView { id, settings: with_destination(settings@, None) },
        ),
{
    let mut settings = settings;
    settings.destination_url = None;
    let rule = OneOffRule { id, settings };
    queue.push_back(rule);
    assert(queue_view(queue@) =~= queue_view(old(queue)@).push(rule@));
}

/// The settings of `rule` with the destination of `current`.
fn candidate(rule: &OneOffRule, current: &Settings) -> (settings: Settings)
    ensures
        settings@ == with_destination(rule.settings@, current@.destination_url),
{
    let mut settings = rule.settings.clone();
    settings.destination_url = current.destination_url.clone();
    settings
}

/// Lets a request with the settings `current` pass the queue. The rules are
/// tried from the front, each with the destination of `current` in place of
/// its own; the first that matches the request leaves the queue and gives
/// the request its settings. Where none matches, the settings are `current`
/// and the queue stays as it is.
pub fn consume_rule(
    queue: &mut VecDeque<OneOffRule>,
    ctx: &RequestContext,
    current: Settings,
) -> (settings: Settings)
    ensures
        settings@ == settings_after(queue_view(old(queue)@), ctx@, current@),
        queue_view(final(queue)@) == queue_after(queue_view(old(queue)@), ctx@, current@),
{
    let ghost rules = queue_view(queue@);
    let ghost destination = current@.destination_url;
    let mut i: usize = 0;
    while i < queue.len()
        invariant
            i <= queue.len(),
            queue == old(queue),
            rules == queue_view(queue@),
            destination == current@.destination_url,
            first_match(rules, ctx@, destination) == first_match_from(
                rules,
                ctx@,
                destination,
                i as int,
            ),
        decreases queue.len() - i,
    {
        let settings = candidate(&queue[i], &current);
        if matches_request(ctx, &settings) {
            let taken = queue.remove(i);
            assert(queue_view(queue@) =~= rules.remove(i as int));
            return settings;
        }
        i += 1;
    }
    current
}

/// The trailer of the bodies that the proxy writes: a line feed where the
/// development flag is `true`, in any letter case, and nothing otherwise.
pub open spec fn trailer_of(flag: Option<Seq<char>>) -> Seq<char> {
    match flag {
        Some(value) => if lowercase(value) == "true"@ {
            "\n"@
        } else {
            Seq::empty()
        },
        None => Seq::empty(),
    }
}

/// The trailer that the development flag of the environment asks for.
pub fn development_trailer(flag: Option<&str>) -> (trailer: String)
    ensures
        trailer@ == trailer_of(
            match flag {
                Some(value) => Some(value@),
                None => None,
            },
        ),
{
    match flag {
        Some(value) => {
            proof {
                reveal_strlit("true");
                lemma_lowercase_of_lower("true"@);
            }
            if equal_ignoring_case(&chars_of(value), &chars_of("true")) {
                "\n".to_owned()
            } else {
                String::new()
            }
        },
        None => String::new(),
    }
}

/// The read lock on the admin overrides, while it is held: a
/// `parking_lot::RwLockReadGuard`. The verifier does not look inside.
#[verifier::external_body]
struct AdminRead<'a> {
    guard: RwLockReadGuard<'a, SettingsLayer>,
}

/// The write lock on the admin overrides, while it is held: a
/// `parking_lot::RwLockWriteGuard`. The verifier does not look inside.
#[verifier::external_body]
struct AdminWrite<'a> {
    guard: RwLockWriteGuard<'a, SettingsLayer>,
}

/// The lock on the queue of one-off rules, while it is held: a
/// `parking_lot::MutexGuard`. The verifier does not look inside.
#[verifier::external_body]
struct QueueLock<'a> {
    guard: MutexGuard<'a, VecDeque<OneOffRule>>,
}

/// Calls `RwLock::new`.
#[verifier::external_body]
fn new_admin_lock(layer: SettingsLayer) -> RwLock<SettingsLayer> {
    RwLock::new(layer)
}

/// Calls `Mutex::new`.
#[verifier::external_body]
fn new_queue_lock(queue: VecDeque<OneOffRule>) -> Mutex<VecDeque<OneOffRule>> {
    Mutex::new(queue)
}

/// Calls `RwLock::read`: waits for the lock and holds it for reading.
#[verifier::external_body]
fn read_admin<'a>(lock: &'a RwLock<SettingsLayer>) -> AdminRead<'a> {
    AdminRead { guard: lock.read() }
}

/// Calls `RwLock::write`: waits for the lock and holds it for writing.
#[verifier::external_body]
fn write_admin<'a>(lock: &'a RwLock<SettingsLayer>) -> AdminWrite<'a> {
    AdminWrite { guard: lock.write() }
}

/// Calls `Mutex::lock`: waits for the lock and holds it.
#[verifier::external_body]
fn lock_queue<'a>(lock: &'a Mutex<VecDeque<OneOffRule>>) -> QueueLock<'a> {
    QueueLock { guard: lock.lock() }
}

/// The layer that a read lock guards, through `Deref` of the guard.
#[verifier::external_body]
fn admin_of<'a, 'b>(held: &'a AdminRead<'b>) -> &'a SettingsLayer {
    &*held.guard
}

/// The layer that a write lock guards, through `DerefMut` of the guard.
#[verifier::external_body]
fn admin_mut<'a, 'b>(held: &'a mut AdminWrite<'b>) -> &'a mut SettingsLayer {
    &mut *held.guard
}

/// The queue that the lock guards, through `DerefMut` of the guard.
#[verifier::external_body]
fn queue_mut<'a, 'b>(held: &'a mut QueueLock<'b>) -> &'a mut VecDeque<OneOffRule> {
    &mut *held.guard
}

/// Calls `Uuid::new_v4`: a random identifier.
#[verifier::external_body]
fn fresh_id() -> Uuid {
    Uuid::new_v4()
}

/// The state that the requests of a process share.
pub struct AppState {
    env_layer: SettingsLayer,
    admin_overrides: RwLock<SettingsLayer>,
    one_off: Mutex<VecDeque<OneOffRule>>,
    body_trailer: String,
}

impl AppState {
    /// The layer of the environment.
    pub closed spec fn env(&self) -> LayerView {
        self.env_layer@
    }

    /// The text that ends every body that the proxy writes itself.
    pub closed spec fn trailer(&self) -> Seq<char> {
        self.body_trailer@
    }

    /// A state with this layer of the environment, no admin overrides and
    /// no one-off rules.
    pub fn new(env_layer: SettingsLayer, body_trailer: String) -> (state: AppState)
        ensures
            state.env() == env_layer@,
            state.trailer() == body_trailer@,
    {
        AppState {
            env_layer,
            admin_overrides: new_admin_lock(SettingsLayer::default()),
            one_off: new_queue_lock(VecDeque::new()),
            body_trailer,
        }
    }

    /// The layer of the environment.
    pub fn env_layer(&self) -> (layer: &SettingsLayer)
        ensures
            layer@ == self.env(),
    {
        &self.env_layer
    }

    pub fn body_trailer(&self) -> (trailer: &str)
        ensures
            trailer@ == self.trailer(),
    {
        self.body_trailer.as_str()
    }

    /// Merges `layer` into the admin overrides and returns the snapshot that
    /// holds from then on: that of the overrides as they were, with `layer`
    /// laid over them.
    pub fn merge_admin(&self, layer: SettingsLayer) -> (settings: Settings)
        ensures
            exists|before: LayerView| settings@ == #[trigger] snapshot(
                self.env(),
                before.merged(layer@),
            ),
            settings@ == settings@.with_layer(layer@),
    {
        let mut held = write_admin(&self.admin_overrides);
        let admin = admin_mut(&mut held);
        let ghost before = admin@;
        admin.merge(&layer);
        let settings = snapshot_of(&self.env_layer, admin);
        assert(settings@ == snapshot(self.env(), before.merged(layer@)));
        settings
    }

    /// Replaces the admin overrides by `layer` and returns the snapshot that
    /// holds from then on. What was merged before is forgotten.
    pub fn reset_admin(&self, layer: SettingsLayer) -> (settings: Settings)
        ensures
            settings@ == snapshot(self.env(), layer@),
    {
        let mut held = write_admin(&self.admin_overrides);
        let admin = admin_mut(&mut held);
        reset_layer(admin, layer);
        snapshot_of(&self.env_layer, admin)
    }

    /// The settings that hold without a request: the initial settings, then
    /// the layer of the environment, then the admin overrides as they are.
    pub fn admin_snapshot(&self) -> (settings: Settings)
        ensures
            exists|admin: LayerView| settings@ == #[trigger] snapshot(self.env(), admin),
    {
        let held = read_admin(&self.admin_overrides);
        let admin = admin_of(&held);
        let settings = snapshot_of(&self.env_layer, admin);
        assert(settings@ == snapshot(self.env(), admin@));
        settings
    }

    /// The settings of a request before the one-off rules: the admin
    /// snapshot with the layer of the request applied.
    pub fn effective_settings(&self, overrides: &SettingsLayer) -> (settings: Settings)
        ensures
            exists|admin: LayerView|
                settings@ == (#[trigger] snapshot(self.env(), admin)).with_layer(overrides@),
            settings@ == settings@.with_layer(overrides@),
    {
        let mut settings = self.admin_snapshot();
        settings.apply_layer(overrides);
        settings
    }

    /// Adds a one-off rule with `settings`, without a destination, at the
    /// back of the queue, and returns its identifier.
    pub fn add_one_off(&self, settings: Settings) -> Uuid {
        let id = fresh_id();
        let mut held = lock_queue(&self.one_off);
        let queue = queue_mut(&mut held);
        enqueue_rule(queue, id, settings);
        id
    }

    /// Lets a request pass the queue of one-off rules: the first rule that
    /// matches it, with the destination of `current`, leaves the queue and
    /// gives the request its settings. The result is `current`, or settings
    /// that match the request; the destination is that of `current` in both
    /// cases.
    pub fn apply_one_off(&self, ctx: &RequestContext, current: Settings) -> (settings: Settings)
        ensures
            settings@ == current@ || request_matches(ctx@, settings@),
            settings@.destination_url == current@.destination_url,
    {
        let mut held = lock_queue(&self.one_off);
        let queue = queue_mut(&mut held);
        proof {
            lemma_first_match(queue_view(queue@), ctx@, current@.destination_url, 0);
        }
        consume_rule(queue, ctx, current)
    }
}

} // verus!
