use vstd::prelude::*;
use vstd::string::StringExecFns;
use crate::pub_keys::{composite_key, PubKeys};

verus! {

/// Relies on `sessionless::Sessionless::generate_uuid` (a random version 4
/// UUID) and on its `Display`, which writes the 36-character hyphenated form.
#[verifier::external_body]
fn generate_uuid() -> (r: String)
    ensures
        r@.len() == 36,
{
    sessionless::Sessionless::generate_uuid().to_string()
}

/// The storage key of the index record.
pub open spec fn keys_storage_key() -> Seq<char> {
    seq!['k', 'e', 'y', 's']
}

/// The storage key of the user record with identifier `uuid`.
pub open spec fn user_storage_key(uuid: Seq<char>) -> Seq<char> {
    seq!['u', 's', 'e', 'r', ':'] + uuid
}

/// The storage key of the index record.
pub fn keys_key() -> (r: String)
    ensures
        r@ == keys_storage_key(),
{
    proof {
        reveal_strlit("keys");
    }
    let r = "keys".to_owned();
    assert(r@ =~= keys_storage_key());
    r
}

pub struct UserModel {
    pub uuid: Seq<char>,
    pub pub_key: Seq<char>,
    pub hash: Seq<char>,
}

/// A user: its identifier, its public key and the application hash.
#[derive(Debug, Clone)]
pub struct UserRecord {
    pub uuid: String,
    pub pub_key: String,
    pub hash: String,
}

impl View for UserRecord {
    type V = UserModel;

    open spec fn view(&self) -> UserModel {
        UserModel { uuid: self.uuid@, pub_key: self.pub_key@, hash: self.hash@ }
    }
}

impl UserRecord {
    /// The storage key of this user: `user:` followed by its identifier.
    pub fn storage_key(&self) -> (r: String)
        ensures
            r@ == user_storage_key(self.uuid@),
    {
        proof {
            reveal_strlit("user:");
        }
        let mut r = "user:".to_owned();
        r.append(self.uuid.as_str());
        assert(r@ =~= user_storage_key(self.uuid@));
        r
    }
}

/// Why resolving a user failed.
#[derive(Clone, Copy, Debug, PartialEq, Eq, Structural)]
pub enum ResolveError {
    /// The user record could not be stored; the index was left alone.
    PutUser,
    /// The user record was stored but the index could not be updated.
    UpdateKeys,
    /// An event came that the current stage does not wait for.
    OutOfOrder,
}

pub enum StageModel {
    Lookup,
    PuttingUser(Seq<char>),
    ReloadingKeys(Seq<char>),
    UpdatingKeys(Seq<char>),
    Finished,
}

pub struct ResolutionModel {
    pub pub_key: Seq<char>,
    pub hash: Seq<char>,
    pub stage: StageModel,
}

pub enum EventModel {
    KeysLoaded(Option<Map<Seq<char>, Seq<char>>>),
    Stored(bool),
}

pub enum ActionModel {
    LoadKeys,
    PutUser(UserModel),
    PutKeys(Map<Seq<char>, Seq<char>>),
    Finish(Result<Seq<char>, ResolveError>),
}

/// Where a resolution stands.
pub enum Stage {
    /// The index is being read to look the pair up.
    Lookup,
    /// A new user record with this identifier is being written.
    PuttingUser { uuid: String },
    /// The index is being read again to add the new identifier.
    ReloadingKeys { uuid: String },
    /// The updated index is being written.
    UpdatingKeys { uuid: String },
    Finished,
}

/// What the store reported for the last action.
pub enum Event {
    /// The index record as read; `None` where it is absent.
    KeysLoaded { keys: Option<PubKeys> },
    /// Whether a write succeeded.
    Stored { ok: bool },
}

/// What the caller is to do next with the store.
pub enum Action {
    /// Read the index record.
    LoadKeys,
    /// Write this user record under its storage key.
    PutUser { user: UserRecord },
    /// Write this index record under the index key.
    PutKeys { keys: PubKeys },
    /// The resolution is over, with this outcome.
    Finish { result: Result<String, ResolveError> },
}

impl View for Stage {
    type V = StageModel;

    open spec fn view(&self) -> StageModel {
        match self {
            Stage::Lookup => StageModel::Lookup,
            Stage::PuttingUser { uuid } => StageModel::PuttingUser(uuid@),
            Stage::ReloadingKeys { uuid } => StageModel::ReloadingKeys(uuid@),
            Stage::UpdatingKeys { uuid } => StageModel::UpdatingKeys(uuid@),
            Stage::Finished => StageModel::Finished,
        }
    }
}

pub open spec fn keys_view(keys: Option<PubKeys>) -> Option<Map<Seq<char>, Seq<char>>> {
    match keys {
        Some(k) => Some(k@),
        None => None,
    }
}

impl View for Event {
    type V = EventModel;

    open spec fn view(&self) -> EventModel {
        match self {
            Event::KeysLoaded { keys } => EventModel::KeysLoaded(keys_view(*keys)),
            Event::Stored { ok } => EventModel::Stored(*ok),
        }
    }
}

impl View for Action {
    type V = ActionModel;

    open spec fn view(&self) -> ActionModel {
        match self {
            Action::LoadKeys => ActionModel::LoadKeys,
            Action::PutUser { user } => ActionModel::PutUser(user@),
            Action::PutKeys { keys } => ActionModel::PutKeys(keys@),
            Action::Finish { result } => ActionModel::Finish(match result {
                Ok(u) => Ok(u@),
                Err(e) => Err(*e),
            }),
        }
    }
}

/// The resolve-or-create step: from a stage and what the store reported, the
/// next stage and what to do. `fresh` is the identifier that a new user gets.
pub open spec fn next(m: ResolutionModel, e: EventModel, fresh: Seq<char>) -> (ResolutionModel, ActionModel) {
    let key = composite_key(m.hash, m.pub_key);
    let to = |s: StageModel| ResolutionModel { pub_key: m.pub_key, hash: m.hash, stage: s };
    match m.stage {
        StageModel::Lookup => match e {
            EventModel::KeysLoaded(keys) => {
                if keys is Some && keys.unwrap().contains_key(key) {
                    (to(StageModel::Finished), ActionModel::Finish(Ok(keys.unwrap()[key])))
                } else {
                    (
                        to(StageModel::PuttingUser(fresh)),
                        ActionModel::PutUser(UserModel { uuid: fresh, pub_key: m.pub_key, hash: m.hash }),
                    )
                }
            },
            _ => (to(StageModel::Finished), ActionModel::Finish(Err(ResolveError::OutOfOrder))),
        },
        StageModel::PuttingUser(u) => match e {
            EventModel::Stored(ok) => if ok {
                (to(StageModel::ReloadingKeys(u)), ActionModel::LoadKeys)
            } else {
                (to(StageModel::Finished), ActionModel::Finish(Err(ResolveError::PutUser)))
            },
            _ => (to(StageModel::Finished), ActionModel::Finish(Err(ResolveError::OutOfOrder))),
        },
        StageModel::ReloadingKeys(u) => match e {
            EventModel::KeysLoaded(keys) => {
                let base = if keys is Some { keys.unwrap() } else { Map::empty() };
                (to(StageModel::UpdatingKeys(u)), ActionModel::PutKeys(base.insert(key, u)))
            },
            _ => (to(StageModel::Finished), ActionModel::Finish(Err(ResolveError::OutOfOrder))),
        },
        StageModel::UpdatingKeys(u) => match e {
            EventModel::Stored(ok) => if ok {
                (to(StageModel::Finished), ActionModel::Finish(Ok(u)))
            } else {
                (to(StageModel::Finished), ActionModel::Finish(Err(ResolveError::UpdateKeys)))
            },
            _ => (to(StageModel::Finished), ActionModel::Finish(Err(ResolveError::OutOfOrder))),
        },
        StageModel::Finished => (to(StageModel::Finished), ActionModel::Finish(Err(ResolveError::OutOfOrder))),
    }
}

/// One resolve-or-create call for a `(public key, hash)` pair: it looks the
/// pair up in the index and, on a miss, stores a new user and then the index
/// with the new identifier. The store is driven by the caller, one action at
/// a time.
pub struct UserResolution {
    pub_key: String,
    hash: String,
    stage: Stage,
}

impl View for UserResolution {
    type V = ResolutionModel;

    closed spec fn view(&self) -> ResolutionModel {
        ResolutionModel { pub_key: self.pub_key@, hash: self.hash@, stage: self.stage@ }
    }
}

impl UserResolution {
    /// Begins a resolution; its first action reads the index.
    pub fn start(pub_key: String, hash: String) -> (r: (UserResolution, Action))
        ensures
            r.0@ == (ResolutionModel { pub_key: pub_key@, hash: hash@, stage: StageModel::Lookup }),
            r.1@ == ActionModel::LoadKeys,
    {
        (UserResolution { pub_key, hash, stage: Stage::Lookup }, Action::LoadKeys)
    }

    /// Whether the resolution is over.
    pub fn is_finished(&self) -> (r: bool)
        ensures
            r == (self@.stage is Finished),
    {
        match self.stage {
            Stage::Finished => true,
            _ => false,
        }
    }

    /// Takes the store's report and gives the next action; a new user gets
    /// the identifier `fresh`.
    pub fn advance(&mut self, event: Event, fresh: String) -> (a: Action)
        ensures
            (final(self)@, a@) == next(old(self)@, event@, fresh@),
    {
        let key = PubKeys::key(self.hash.as_str(), self.pub_key.as_str());
        let out_of_order = Action::Finish { result: Err(ResolveError::OutOfOrder) };
        let (stage, action) = match event {
            Event::KeysLoaded { keys } => match &self.stage {
                Stage::Lookup => {
                    let found = match &keys {
                        Some(k) => match k.get_user_uuid(key.as_str()) {
                            Some(u) => Some(u.clone()),
                            None => None,
                        },
                        None => None,
                    };
                    match found {
                        Some(u) => (Stage::Finished, Action::Finish { result: Ok(u) }),
                        None => {
                            let user = UserRecord {
                                uuid: fresh.clone(),
                                pub_key: self.pub_key.clone(),
                                hash: self.hash.clone(),
                            };
                            (Stage::PuttingUser { uuid: fresh }, Action::PutUser { user })
                        },
                    }
                },
                Stage::ReloadingKeys { uuid } => {
                    let mut base = match keys {
                        Some(k) => k,
                        None => PubKeys::new(),
                    };
                    base.insert(key, uuid.clone());
                    (Stage::UpdatingKeys { uuid: uuid.clone() }, Action::PutKeys { keys: base })
                },
                _ => (Stage::Finished, out_of_order),
            },
            Event::Stored { ok } => match &self.stage {
                Stage::PuttingUser { uuid } => if ok {
                    (Stage::ReloadingKeys { uuid: uuid.clone() }, Action::LoadKeys)
                } else {
                    (Stage::Finished, Action::Finish { result: Err(ResolveError::PutUser) })
                },
                Stage::UpdatingKeys { uuid } => if ok {
                    (Stage::Finished, Action::Finish { result: Ok(uuid.clone()) })
                } else {
                    (Stage::Finished, Action::Finish { result: Err(ResolveError::UpdateKeys) })
                },
                _ => (Stage::Finished, out_of_order),
            },
        };
        self.stage = stage;
        action
    }

    /// Takes the store's report and gives the next action; a new user gets a
    /// freshly generated identifier.
    pub fn step(&mut self, event: Event) -> (a: Action)
        ensures
            exists|fresh: Seq<char>| fresh.len() == 36 && (final(self)@, a@) == next(old(self)@, event@, fresh),
    {
        let ghost pre = self@;
        let ghost e = event@;
        let fresh = match self.stage {
            Stage::Lookup => generate_uuid(),
            _ => String::new(),
        };
        let a = self.advance(event, fresh);
        proof {
            if !(pre.stage is Lookup) {
                let w = Seq::new(36, |i: int| '0');
                assert(w.len() == 36);
                assert(next(pre, e, fresh@) == next(pre, e, w));
                assert((self@, a@) == next(pre, e, w));
            } else {
                assert((self@, a@) == next(pre, e, fresh@));
            }
        }
        a
    }
}

/// What the store holds that a resolution reads and writes: the index record,
/// if present, and the user records by storage key.
pub struct StoreModel {
    pub keys: Option<Map<Seq<char>, Seq<char>>>,
    pub users: Map<Seq<char>, UserModel>,
}

/// A store on which every write succeeds: what it becomes under an action,
/// and what it reports back.
pub open spec fn perform(s: StoreModel, a: ActionModel) -> (StoreModel, EventModel) {
    match a {
        ActionModel::LoadKeys => (s, EventModel::KeysLoaded(s.keys)),
        ActionModel::PutUser(u) => (
            StoreModel { keys: s.keys, users: s.users.insert(user_storage_key(u.uuid), u) },
            EventModel::Stored(true),
        ),
        ActionModel::PutKeys(k) => (StoreModel { keys: Some(k), users: s.users }, EventModel::Stored(true)),
        ActionModel::Finish(_) => (s, EventModel::Stored(false)),
    }
}

/// Runs one resolution alone against a store, for at most `fuel` actions:
/// its outcome, if it finished, and the store afterwards.
pub open spec fn drive(
    m: ResolutionModel,
    s: StoreModel,
    a: ActionModel,
    fresh: Seq<char>,
    fuel: nat,
) -> (Option<Result<Seq<char>, ResolveError>>, StoreModel)
    decreases fuel,
{
    match a {
        ActionModel::Finish(r) => (Some(r), s),
        _ => if fuel == 0 {
            (None, s)
        } else {
            let (s2, e) = perform(s, a);
            let (m2, a2) = next(m, e, fresh);
            drive(m2, s2, a2, fresh, (fuel - 1) as nat)
        },
    }
}

pub open spec fn started(pub_key: Seq<char>, hash: Seq<char>) -> ResolutionModel {
    ResolutionModel { pub_key, hash, stage: StageModel::Lookup }
}

/// A whole resolve-or-create call with no other call in between.
pub open spec fn resolve_alone(pub_key: Seq<char>, hash: Seq<char>, s: StoreModel, fresh: Seq<char>) -> (
    Option<Result<Seq<char>, ResolveError>>,
    StoreModel,
) {
    drive(started(pub_key, hash), s, ActionModel::LoadKeys, fresh, 4)
}

/// Resolving the same pair twice in a row gives the same identifier both
/// times, and the second call writes nothing at all.
pub proof fn lemma_resolve_idempotent(
    pub_key: Seq<char>,
    hash: Seq<char>,
    s: StoreModel,
    fresh1: Seq<char>,
    fresh2: Seq<char>,
)
    ensures
        ({
            let (r1, s1) = resolve_alone(pub_key, hash, s, fresh1);
            let (r2, s2) = resolve_alone(pub_key, hash, s1, fresh2);
            &&& r1 matches Some(Ok(_))
            &&& r2 == r1
            &&& s2 == s1
        }),
{
    reveal_with_fuel(drive, 5);
    let key = composite_key(hash, pub_key);
    let (r1, s1) = resolve_alone(pub_key, hash, s, fresh1);
    if !(s.keys is Some && s.keys.unwrap().contains_key(key)) {
        let base = if s.keys is Some { s.keys.unwrap() } else { Map::empty() };
        assert(s1.keys == Some(base.insert(key, fresh1)));
        assert(r1 == Some(Ok::<Seq<char>, ResolveError>(fresh1)));
    }
}

/// A new pair resolved on an empty store: the call succeeds with the fresh
/// identifier, stores that one user, and leaves an index of that one entry.
pub proof fn lemma_first_resolution(pub_key: Seq<char>, hash: Seq<char>, fresh: Seq<char>)
    ensures
        ({
            let empty = StoreModel { keys: None, users: Map::empty() };
            let (r, s) = resolve_alone(pub_key, hash, empty, fresh);
            &&& r == Some(Ok::<Seq<char>, ResolveError>(fresh))
            &&& s.keys == Some(Map::<Seq<char>, Seq<char>>::empty().insert(composite_key(hash, pub_key), fresh))
            &&& s.keys.unwrap().len() == 1
            &&& s.users == Map::<Seq<char>, UserModel>::empty().insert(
                user_storage_key(fresh),
                UserModel { uuid: fresh, pub_key, hash },
            )
        }),
{
    reveal_with_fuel(drive, 5);
    let key = composite_key(hash, pub_key);
    let m = Map::<Seq<char>, Seq<char>>::empty().insert(key, fresh);
    assert(m.dom() =~= set![key]);
}

/// Two resolutions run in lockstep against one store, for at most `fuel`
/// rounds: in each round the first carries out its action and takes the
/// report, then the second does. Gives both outcomes and the store afterwards.
pub open spec fn lockstep(
    ma: ResolutionModel,
    aa: ActionModel,
    fa: Seq<char>,
    mb: ResolutionModel,
    ab: ActionModel,
    fb: Seq<char>,
    s: StoreModel,
    fuel: nat,
) -> (Option<Result<Seq<char>, ResolveError>>, Option<Result<Seq<char>, ResolveError>>, StoreModel)
    decreases fuel,
{
    match (aa, ab) {
        (ActionModel::Finish(ra), ActionModel::Finish(rb)) => (Some(ra), Some(rb), s),
        _ => if fuel == 0 {
            (None, None, s)
        } else {
            let (s1, ea) = if aa is Finish { (s, EventModel::Stored(false)) } else { perform(s, aa) };
            let (ma2, aa2) = if aa is Finish { (ma, aa) } else { next(ma, ea, fa) };
            let (s2, eb) = if ab is Finish { (s1, EventModel::Stored(false)) } else { perform(s1, ab) };
            let (mb2, ab2) = if ab is Finish { (mb, ab) } else { next(mb, eb, fb) };
            lockstep(ma2, aa2, fa, mb2, ab2, fb, s2, (fuel - 1) as nat)
        },
    }
}

/// Two simultaneous resolve-or-create calls for the same pair that the index
/// does not hold yet: both look the pair up before either writes, so both
/// succeed, each with its own identifier, and both user records are stored;
/// the index keeps only the identifier written last, and the other user is
/// left without an index entry. No lock guards the index record.
pub proof fn lemma_concurrent_resolutions_race(
    pub_key: Seq<char>,
    hash: Seq<char>,
    s: StoreModel,
    fresh_a: Seq<char>,
    fresh_b: Seq<char>,
)
    requires
        !(s.keys matches Some(k) && k.contains_key(composite_key(hash, pub_key))),
        fresh_a != fresh_b,
    ensures
        ({
            let m = started(pub_key, hash);
            let key = composite_key(hash, pub_key);
            let (ra, rb, s2) = lockstep(m, ActionModel::LoadKeys, fresh_a, m, ActionModel::LoadKeys, fresh_b, s, 4);
            &&& ra == Some(Ok::<Seq<char>, ResolveError>(fresh_a))
            &&& rb == Some(Ok::<Seq<char>, ResolveError>(fresh_b))
            &&& s2.users.contains_key(user_storage_key(fresh_a))
            &&& s2.users.contains_key(user_storage_key(fresh_b))
            &&& s2.keys matches Some(k) && k.contains_key(key) && k[key] == fresh_b
        }),
{
    reveal_with_fuel(lockstep, 5);
}

} // verus!
