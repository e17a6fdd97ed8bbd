//! The store facade without its transport: what each operation sends, and
//! what it makes of the answer.
//!
//! A caller hands the request to its transport and hands the answer back.
//! Batch operations travel in one transactional envelope, which the store
//! applies as a whole or not at all; single operations travel without a
//! transaction.

use crate::convert::{Kind, TryFromEntity, TryFromEntityError};
use crate::entity::{Entity, EntityView};
use crate::key::{Key, KeyView};
use vstd::prelude::*;

verus! {

/// How the store is to apply the mutations of a commit.
#[derive(Clone, Copy, Debug, PartialEq, Eq)]
pub enum CommitMode {
    /// In a read-write transaction of its own: all mutations or none.
    Transactional,
    /// Outside of any transaction.
    NonTransactional,
}

/// One change to the store.
#[derive(Debug)]
pub enum Mutation {
    /// Writes the entity, whether or not one with its key exists.
    Upsert(Entity),
    /// Removes the entity with the key.
    Delete(Key),
}

/// The mathematical value of a [`Mutation`].
pub enum MutationView {
    Upsert(EntityView),
    Delete(KeyView),
}

impl View for Mutation {
    type V = MutationView;

    open spec fn view(&self) -> MutationView {
        match self {
            Mutation::Upsert(entity) => MutationView::Upsert(entity@),
            Mutation::Delete(key) => MutationView::Delete(key@),
        }
    }
}

/// A request to apply mutations.
#[derive(Debug)]
pub struct CommitRequest {
    pub project_id: String,
    pub database_id: String,
    pub mode: CommitMode,
    pub mutations: Vec<Mutation>,
}

/// The mathematical value of a [`CommitRequest`].
pub struct CommitRequestView {
    pub project_id: Seq<char>,
    pub database_id: Seq<char>,
    pub mode: CommitMode,
    pub mutations: Seq<MutationView>,
}

impl View for CommitRequest {
    type V = CommitRequestView;

    open spec fn view(&self) -> CommitRequestView {
        CommitRequestView {
            project_id: self.project_id@,
            database_id: self.database_id@,
            mode: self.mode,
            mutations: self.mutations@.map_values(|m: Mutation| m@),
        }
    }
}

/// A request for the entities with the given keys.
#[derive(Clone, Debug, PartialEq, Eq)]
pub struct LookupRequest {
    pub project_id: String,
    pub database_id: String,
    pub keys: Vec<Key>,
}

/// The mathematical value of a [`LookupRequest`].
pub struct LookupRequestView {
    pub project_id: Seq<char>,
    pub database_id: Seq<char>,
    pub keys: Seq<KeyView>,
}

impl View for LookupRequest {
    type V = LookupRequestView;

    open spec fn view(&self) -> LookupRequestView {
        LookupRequestView {
            project_id: self.project_id@,
            database_id: self.database_id@,
            keys: self.keys@.map_values(|k: Key| k@),
        }
    }
}

/// A query with the project and database that it is to run against. The
/// facade does not look into the query.
#[derive(Clone, Debug, PartialEq, Eq)]
pub struct RunQueryRequest<Q> {
    pub project_id: String,
    pub database_id: String,
    pub query: Q,
}

/// The query for every entity of one kind.
#[derive(Clone, Debug, PartialEq, Eq)]
pub struct KindQuery {
    pub kind: String,
}

/// The entities of `results`, in order, leaving out the results that hold
/// none.
pub open spec fn present(results: Seq<Option<Entity>>) -> Seq<Entity>
    decreases results.len(),
{
    if results.len() == 0 {
        Seq::empty()
    } else {
        match results.last() {
            Some(entity) => present(results.drop_last()).push(entity),
            None => present(results.drop_last()),
        }
    }
}

/// The entities of a query's batch: none where the batch is missing.
pub open spec fn batch_entities(batch: Option<Vec<Option<Entity>>>) -> Seq<Entity> {
    match batch {
        Some(results) => present(results@),
        None => Seq::empty(),
    }
}

/// Whether converting `entity` to a `T` may succeed.
pub open spec fn may_convert<T: TryFromEntity>(entity: Entity) -> bool {
    exists|item: T| T::converts(entity, Ok(item))
}

/// Whether `e` is what converting `entities` one after the other stops on:
/// the conversion of the entity at `at` may fail with `e`, and the
/// conversions before it may succeed.
pub open spec fn stops_at<T: TryFromEntity>(
    entities: Seq<Entity>,
    at: int,
    e: TryFromEntityError,
) -> bool {
    &&& 0 <= at < entities.len()
    &&& T::converts(entities[at], Err(e))
    &&& forall|j: int| 0 <= j < at ==> may_convert::<T>(#[trigger] entities[j])
}

/// The project and database that every request is stamped with.
#[derive(Clone, Debug, PartialEq, Eq)]
pub struct Datastore {
    project_id: String,
    database_id: String,
}

/// The mathematical value of a [`Datastore`].
pub struct DatastoreView {
    pub project_id: Seq<char>,
    pub database_id: Seq<char>,
}

impl View for Datastore {
    type V = DatastoreView;

    closed spec fn view(&self) -> DatastoreView {
        DatastoreView { project_id: self.project_id@, database_id: self.database_id@ }
    }
}

impl DatastoreView {
    /// The commit of `mutations` in the given mode.
    pub open spec fn commit(self, mode: CommitMode, mutations: Seq<MutationView>)
        -> CommitRequestView {
        CommitRequestView {
            project_id: self.project_id,
            database_id: self.database_id,
            mode,
            mutations,
        }
    }

    /// The lookup of `keys`.
    pub open spec fn lookup(self, keys: Seq<KeyView>) -> LookupRequestView {
        LookupRequestView { project_id: self.project_id, database_id: self.database_id, keys }
    }
}

impl Datastore {
    /// A facade for the given project. Without a database identifier the
    /// project's default database is meant, which the empty string names.
    pub fn new(project_id: String, database_id: Option<String>) -> (datastore: Datastore)
        ensures
            datastore@.project_id == project_id@,
            datastore@.database_id == match database_id {
                Some(id) => id@,
                None => Seq::<char>::empty(),
            },
    {
        let database_id = match database_id {
            Some(id) => id,
            None => String::new(),
        };
        Datastore { project_id, database_id }
    }

    /// The project's identifier.
    pub fn project_id(&self) -> (id: &str)
        ensures
            id@ == self@.project_id,
    {
        self.project_id.as_str()
    }

    /// The database's identifier, empty for the default database.
    pub fn database_id(&self) -> (id: &str)
        ensures
            id@ == self@.database_id,
    {
        self.database_id.as_str()
    }

    /// The request that writes all of `entities` in one transaction.
    pub fn upsert_entities(&self, entities: Vec<Entity>) -> (request: CommitRequest)
        ensures
            request@ == self@.commit(
                CommitMode::Transactional,
                entities@.map_values(|e: Entity| MutationView::Upsert(e@)),
            ),
    {
        let ghost all = entities@;
        let mut mutations: Vec<Mutation> = Vec::new();
        for entity in it: entities
            invariant
                it.seq() == all,
                mutations@.len() == it.index(),
                forall|j: int|
                    0 <= j < mutations@.len() ==> (#[trigger] mutations@[j])@
                        == MutationView::Upsert(all[j]@),
        {
            mutations.push(Mutation::Upsert(entity));
        }
        let request = CommitRequest {
            project_id: self.project_id.clone(),
            database_id: self.database_id.clone(),
            mode: CommitMode::Transactional,
            mutations,
        };
        assert(request@.mutations =~= all.map_values(|e: Entity| MutationView::Upsert(e@)));
        request
    }

    /// The request that writes `entity` outside of a transaction.
    pub fn upsert_entity(&self, entity: Entity) -> (request: CommitRequest)
        ensures
            request@ == self@.commit(
                CommitMode::NonTransactional,
                seq![MutationView::Upsert(entity@)],
            ),
    {
        let mut mutations: Vec<Mutation> = Vec::new();
        mutations.push(Mutation::Upsert(entity));
        let request = CommitRequest {
            project_id: self.project_id.clone(),
            database_id: self.database_id.clone(),
            mode: CommitMode::NonTransactional,
            mutations,
        };
        assert(request@.mutations =~= seq![MutationView::Upsert(entity@)]);
        request
    }

    /// The request that removes the entity with `key` outside of a
    /// transaction.
    pub fn delete_entity(&self, key: Key) -> (request: CommitRequest)
        ensures
            request@ == self@.commit(
                CommitMode::NonTransactional,
                seq![MutationView::Delete(key@)],
            ),
    {
        let mut mutations: Vec<Mutation> = Vec::new();
        mutations.push(Mutation::Delete(key));
        let request = CommitRequest {
            project_id: self.project_id.clone(),
            database_id: self.database_id.clone(),
            mode: CommitMode::NonTransactional,
            mutations,
        };
        assert(request@.mutations =~= seq![MutationView::Delete(key@)]);
        request
    }

    /// The request that removes the entities with `keys` in one
    /// transaction.
    pub fn delete_entities(&self, keys: Vec<Key>) -> (request: CommitRequest)
        ensures
            request@ == self@.commit(
                CommitMode::Transactional,
                keys@.map_values(|k: Key| MutationView::Delete(k@)),
            ),
    {
        let ghost all = keys@;
        let mut mutations: Vec<Mutation> = Vec::new();
        for key in it: keys
            invariant
                it.seq() == all,
                mutations@.len() == it.index(),
                forall|j: int|
                    0 <= j < mutations@.len() ==> (#[trigger] mutations@[j])@
                        == MutationView::Delete(all[j]@),
        {
            mutations.push(Mutation::Delete(key));
        }
        let request = CommitRequest {
            project_id: self.project_id.clone(),
            database_id: self.database_id.clone(),
            mode: CommitMode::Transactional,
            mutations,
        };
        assert(request@.mutations =~= all.map_values(|k: Key| MutationView::Delete(k@)));
        request
    }

    /// The request for the entity with `key`.
    pub fn lookup_entity(&self, key: Key) -> (request: LookupRequest)
        ensures
            request@ == self@.lookup(seq![key@]),
    {
        let mut keys: Vec<Key> = Vec::new();
        keys.push(key);
        let request = LookupRequest {
            project_id: self.project_id.clone(),
            database_id: self.database_id.clone(),
            keys,
        };
        assert(request@.keys =~= seq![key@]);
        request
    }

    /// The entity that a lookup found: the first result's, if there is a
    /// result and it holds one.
    pub fn first_found(found: Vec<Option<Entity>>) -> (first: Option<Entity>)
        ensures
            first == if found@.len() > 0 {
                found@[0]
            } else {
                None
            },
    {
        let mut found = found;
        if found.len() == 0 {
            None
        } else {
            found.remove(0)
        }
    }

    /// What a lookup found, read as a domain value. That nothing was found
    /// is no error.
    pub fn lookup_response<T: TryFromEntity>(found: Vec<Option<Entity>>) -> (result: Result<
        Option<T>,
        TryFromEntityError,
    >)
        ensures
            match result {
                Ok(None) => found@.len() == 0 || found@[0] is None,
                Ok(Some(item)) => found@.len() > 0 && found@[0] is Some && T::converts(
                    found@[0]->0,
                    Ok(item),
                ),
                Err(e) => found@.len() > 0 && found@[0] is Some && T::converts(
                    found@[0]->0,
                    Err(e),
                ),
            },
    {
        match Self::first_found(found) {
            None => Ok(None),
            Some(entity) => match T::try_from_entity(entity) {
                Ok(item) => Ok(Some(item)),
                Err(e) => Err(e),
            },
        }
    }

    /// The query for all entities of kind `kind`.
    pub fn kind_query(&self, kind: &str) -> (request: RunQueryRequest<KindQuery>)
        ensures
            request.project_id@ == self@.project_id,
            request.database_id@ == self@.database_id,
            request.query.kind@ == kind@,
    {
        RunQueryRequest {
            project_id: self.project_id.clone(),
            database_id: self.database_id.clone(),
            query: KindQuery { kind: kind.to_owned() },
        }
    }

    /// The query for all entities of the kind that `T` names.
    pub fn load_entities<T: Kind>(&self) -> (request: RunQueryRequest<KindQuery>)
        ensures
            request.project_id@ == self@.project_id,
            request.database_id@ == self@.database_id,
            T::names(request.query.kind@),
    {
        self.kind_query(T::kind())
    }

    /// The entities of a query's batch, in order. A missing batch holds
    /// none, and a result without an entity is passed over.
    pub fn found_entities(batch: Option<Vec<Option<Entity>>>) -> (entities: Vec<Entity>)
        ensures
            entities@ == batch_entities(batch),
    {
        let mut entities: Vec<Entity> = Vec::new();
        let results = match batch {
            Some(results) => results,
            None => {
                return entities;
            },
        };
        let ghost all = results@;
        for result in it: results
            invariant
                it.seq() == all,
                entities@ == present(all.take(it.index() as int)),
        {
            proof {
                let k = it.index() as int;
                assert(all.take(k + 1).drop_last() =~= all.take(k));
            }
            match result {
                Some(entity) => {
                    entities.push(entity);
                },
                None => {},
            }
        }
        assert(all.take(all.len() as int) =~= all);
        entities
    }

    /// The entities of a query's batch, each read as a domain value. The
    /// first entity that cannot be read fails the whole batch.
    pub fn load_response<T: TryFromEntity>(batch: Option<Vec<Option<Entity>>>) -> (result: Result<
        Vec<T>,
        TryFromEntityError,
    >)
        ensures
            match result {
                Ok(items) => items@.len() == batch_entities(batch).len() && forall|i: int|
                    0 <= i < items@.len() ==> T::converts(
                        batch_entities(batch)[i],
                        Ok(#[trigger] items@[i]),
                    ),
                Err(e) => exists|at: int| stops_at::<T>(batch_entities(batch), at, e),
            },
    {
        let entities = Self::found_entities(batch);
        let ghost all = entities@;
        let mut items: Vec<T> = Vec::new();
        for entity in it: entities
            invariant
                it.seq() == all,
                all == batch_entities(batch),
                items@.len() == it.index(),
                forall|j: int|
                    0 <= j < items@.len() ==> T::converts(all[j], Ok(#[trigger] items@[j])),
        {
            match T::try_from_entity(entity) {
                Ok(item) => {
                    items.push(item);
                },
                Err(e) => {
                    assert forall|j: int| 0 <= j < it.index() implies may_convert::<T>(
                        #[trigger] all[j],
                    ) by {
                        assert(T::converts(all[j], Ok(items@[j])));
                    }
                    assert(stops_at::<T>(all, it.index() as int, e));
                    return Err(e);
                },
            }
        }
        Ok(items)
    }

    /// The request to run `request`'s query against this facade's project
    /// and database, whatever the request named before.
    pub fn run_query<Q>(&self, request: RunQueryRequest<Q>) -> (stamped: RunQueryRequest<Q>)
        ensures
            stamped.project_id@ == self@.project_id,
            stamped.database_id@ == self@.database_id,
            stamped.query == request.query,
    {
        RunQueryRequest {
            project_id: self.project_id.clone(),
            database_id: self.database_id.clone(),
            query: request.query,
        }
    }
}

} // verus!
