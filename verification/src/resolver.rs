//! What the index node decides when it resolves a query: which field it
//! serves, and how the result of the deployments query reads as a list of
//! indexing statuses. Running that query is left to the caller.

use crate::values::Value;
use std::sync::Arc;
use vstd::pervasive::unreached;
use vstd::prelude::*;

verus! {

/// `Arc::clone` of std: another handle on the same value.
#[verifier::external_body]
fn share<T>(handle: &Arc<T>) -> (other: Arc<T>)
    ensures
        other == *handle,
{
    handle.clone()
}

/// Resolves the queries of an index node with a query runner and a store.
pub struct IndexNodeResolver<R, S> {
    graphql_runner: Arc<R>,
    store: Arc<S>,
}

/// A place in the text of a query.
#[derive(Clone, Copy, Debug, PartialEq, Eq, Structural)]
pub struct Pos {
    pub line: usize,
    pub column: usize,
}

/// Why a field cannot be resolved.
#[derive(Debug, PartialEq, Eq)]
pub enum QueryExecutionError {
    /// The type of that name has no such field at the root of a query.
    UnknownField { position: Pos, owner: String, field: String },
    /// A field of that name below the root, which nothing resolves yet.
    Unimplemented { field: String },
}

/// A query that the caller runs to resolve a field.
#[derive(Clone, Copy, Debug, PartialEq, Eq, Structural)]
pub enum ObjectsQuery {
    /// The deployments query, whose result reads as indexing statuses.
    IndexingStatuses,
}

/// The result of a query, as far as the resolver reads it.
pub struct QueryResult {
    pub data: Option<Value>,
}

/// How far the indexing of one subgraph deployment is.
#[derive(Debug, PartialEq, Eq)]
pub struct IndexingStatus {
    pub id: String,
    pub synced: bool,
    pub failed: bool,
    pub error: Option<String>,
}

/// The indexing statuses of a list of deployments, in its order.
#[derive(Debug, PartialEq, Eq)]
pub struct IndexingStatuses(pub Vec<IndexingStatus>);

/// The status that a deployment states: its `id`, a string, and `synced`
/// and `failed`, truth values. `None` where one of them is missing or of
/// another kind.
pub open spec fn status_of(deployment: Value) -> Option<IndexingStatus> {
    match (deployment.field("id"@), deployment.field("synced"@), deployment.field("failed"@)) {
        (Some(Value::String(id)), Some(Value::Boolean(synced)), Some(Value::Boolean(failed))) => {
            Some(IndexingStatus { id, synced, failed, error: None })
        },
        _ => None,
    }
}

/// The deployments that a result lists under `subgraphDeployments`: none
/// where it has no data or where that field is no list; `None` where it has
/// data without that field.
pub open spec fn deployments_of(result: QueryResult) -> Option<Seq<Value>> {
    match result.data {
        None => Some(Seq::empty()),
        Some(value) => match value.field("subgraphDeployments"@) {
            None => None,
            Some(Value::List(items)) => Some(items@),
            Some(_) => Some(Seq::empty()),
        },
    }
}

/// A result reads as indexing statuses: it lists deployments, and each of
/// them states a status.
pub open spec fn readable(result: QueryResult) -> bool {
    &&& deployments_of(result) matches Some(deployments)
    &&& forall|i: int| 0 <= i < deployments.len() ==> status_of(#[trigger] deployments[i]) is Some
}

/// `statuses` are the statuses of the deployments of `result`, one for one.
pub open spec fn reads_as(result: QueryResult, statuses: Seq<IndexingStatus>) -> bool {
    &&& deployments_of(result) matches Some(deployments)
    &&& statuses.len() == deployments.len()
    &&& forall|i: int|
        0 <= i < deployments.len() ==> status_of(deployments[i]) == Some(#[trigger] statuses[i])
}

/// How a status is handed back to the query: an object of its four fields,
/// the error being null where there is none.
pub open spec fn status_value(status: IndexingStatus, value: Value) -> bool {
    &&& value matches Value::Object(entries)
    &&& entries@.len() == 4
    &&& entries@[0].0@ == "id"@
    &&& entries@[0].1 == Value::String(status.id)
    &&& entries@[1].0@ == "synced"@
    &&& entries@[1].1 == Value::Boolean(status.synced)
    &&& entries@[2].0@ == "failed"@
    &&& entries@[2].1 == Value::Boolean(status.failed)
    &&& entries@[3].0@ == "error"@
    &&& entries@[3].1 == match status.error {
        Some(error) => Value::String(error),
        None => Value::Null,
    }
}

/// The variables of the deployments query that `arguments` ask for: none
/// where they name no subgraphs, else one variable `where`, an object whose
/// one field `id_in` is the list of `subgraphs`. The `subgraphs`, where they
/// are named, must be a list.
pub fn deployments_variables(arguments: Value) -> (variables: Option<Value>)
    requires
        arguments.field("subgraphs"@) matches Some(ids) ==> ids is List,
    ensures
        variables is Some <==> arguments.field("subgraphs"@) is Some,
        variables matches Some(Value::Object(entries)) ==> {
            &&& entries@.len() == 1
            &&& entries@[0].0@ == "where"@
            &&& entries@[0].1 matches Value::Object(filter)
            &&& filter@.len() == 1
            &&& filter@[0].0@ == "id_in"@
            &&& Some(filter@[0].1) == arguments.field("subgraphs"@)
        },
        variables matches Some(value) ==> value is Object,
{
    match arguments.take("subgraphs") {
        Some(ids) => {
            let mut filter: Vec<(String, Value)> = Vec::new();
            filter.push(("id_in".to_owned(), ids));
            let mut variables: Vec<(String, Value)> = Vec::new();
            variables.push(("where".to_owned(), Value::Object(filter)));
            Some(Value::Object(variables))
        },
        None => None,
    }
}

/// The status that a deployment states, if it states one.
fn read_status(deployment: &Value) -> (status: Option<IndexingStatus>)
    ensures
        status == status_of(*deployment),
{
    let id = match deployment.get("id") {
        Some(Value::String(id)) => id.clone(),
        _ => {
            return None;
        },
    };
    let synced = match deployment.get("synced") {
        Some(Value::Boolean(synced)) => *synced,
        _ => {
            return None;
        },
    };
    let failed = match deployment.get("failed") {
        Some(Value::Boolean(failed)) => *failed,
        _ => {
            return None;
        },
    };
    Some(IndexingStatus { id, synced, failed, error: None })
}

impl IndexingStatuses {
    /// The statuses of the deployments that `result` lists, in their order;
    /// `None` where the result does not read as statuses.
    pub fn read(result: &QueryResult) -> (statuses: Option<IndexingStatuses>)
        ensures
            statuses is Some <==> readable(*result),
            statuses matches Some(list) ==> reads_as(*result, list.0@),
    {
        let mut statuses: Vec<IndexingStatus> = Vec::new();
        let value = match &result.data {
            None => {
                return Some(IndexingStatuses(statuses));
            },
            Some(value) => value,
        };
        let deployments = match value.get("subgraphDeployments") {
            None => {
                return None;
            },
            Some(Value::List(deployments)) => deployments,
            Some(_) => {
                return Some(IndexingStatuses(statuses));
            },
        };
        let mut i: usize = 0;
        while i < deployments.len()
            invariant
                i <= deployments.len(),
                deployments_of(*result) == Some(deployments@),
                statuses@.len() == i,
                forall|k: int|
                    0 <= k < i ==> status_of(deployments@[k]) == Some(#[trigger] statuses@[k]),
            decreases deployments.len() - i,
        {
            match read_status(&deployments[i]) {
                None => {
                    assert(status_of(deployments@[i as int]) is None);
                    return None;
                },
                Some(status) => {
                    statuses.push(status);
                },
            }
            i += 1;
        }
        assert forall|k: int| 0 <= k < deployments@.len() implies status_of(
            #[trigger] deployments@[k],
        ) is Some by {
            assert(status_of(deployments@[k]) == Some(statuses@[k]));
        }
        Some(IndexingStatuses(statuses))
    }

    /// The statuses of the deployments that `result` lists, in their order.
    /// The result must read as statuses.
    pub fn from(result: &QueryResult) -> (statuses: IndexingStatuses)
        requires
            readable(*result),
        ensures
            reads_as(*result, statuses.0@),
    {
        match IndexingStatuses::read(result) {
            Some(statuses) => statuses,
            None => unreached(),
        }
    }
}

impl<R, S> IndexNodeResolver<R, S> {
    /// The query runner of the resolver.
    pub closed spec fn runner(&self) -> Arc<R> {
        self.graphql_runner
    }

    /// The store of the resolver.
    pub closed spec fn subgraph_store(&self) -> Arc<S> {
        self.store
    }

    /// A resolver that works with this query runner and this store.
    pub fn new(graphql_runner: Arc<R>, store: Arc<S>) -> (resolver: Self)
        ensures
            resolver.runner() == graphql_runner,
            resolver.subgraph_store() == store,
    {
        Self { graphql_runner, store }
    }

    /// The query runner of the resolver.
    pub fn graphql_runner(&self) -> (runner: &Arc<R>)
        ensures
            *runner == self.runner(),
    {
        &self.graphql_runner
    }

    /// The store of the resolver.
    pub fn store(&self) -> (store: &Arc<S>)
        ensures
            *store == self.subgraph_store(),
    {
        &self.store
    }

    /// The value that answers the indexing statuses field, from the result
    /// of the deployments query: the list of the statuses that the result
    /// reads as, each as an object.
    pub fn resolve_indexing_statuses(&self, result: &QueryResult) -> (resolved: Result<
        Value,
        QueryExecutionError,
    >)
        requires
            readable(*result),
        ensures
            resolved matches Ok(Value::List(values)) && exists|statuses: Seq<IndexingStatus>|
                {
                    &&& reads_as(*result, statuses)
                    &&& values@.len() == statuses.len()
                    &&& forall|i: int|
                        0 <= i < statuses.len() ==> status_value(statuses[i], #[trigger] values@[i])
                },
    {
        let statuses = IndexingStatuses::from(result);
        let mut values: Vec<Value> = Vec::new();
        let mut i: usize = 0;
        while i < statuses.0.len()
            invariant
                i <= statuses.0.len(),
                values@.len() == i,
                forall|k: int| 0 <= k < i ==> status_value(statuses.0@[k], #[trigger] values@[k]),
            decreases statuses.0.len() - i,
        {
            let status = &statuses.0[i];
            let error = match &status.error {
                Some(error) => Value::String(error.clone()),
                None => Value::Null,
            };
            let mut entries: Vec<(String, Value)> = Vec::new();
            entries.push(("id".to_owned(), Value::String(status.id.clone())));
            entries.push(("synced".to_owned(), Value::Boolean(status.synced)));
            entries.push(("failed".to_owned(), Value::Boolean(status.failed)));
            entries.push(("error".to_owned(), error));
            values.push(Value::Object(entries));
            i += 1;
        }
        Ok(Value::List(values))
    }

    /// Which query resolves the objects of a field. At the root of a query
    /// the field `indexingStatuses` of type `SubgraphIndexingStatus` is
    /// served by the deployments query, and any other field is unknown to
    /// the type `Query`; below the root nothing is resolved yet.
    pub fn resolve_objects(
        &self,
        parent: &Option<Value>,
        field: &str,
        position: Pos,
        object_type: &str,
    ) -> (resolved: Result<ObjectsQuery, QueryExecutionError>)
        ensures
            match resolved {
                Ok(query) => {
                    &&& parent is None
                    &&& field@ == "indexingStatuses"@
                    &&& object_type@ == "SubgraphIndexingStatus"@
                    &&& query == ObjectsQuery::IndexingStatuses
                },
                Err(QueryExecutionError::UnknownField { position: at, owner, field: name }) => {
                    &&& parent is None
                    &&& !(field@ == "indexingStatuses"@ && object_type@
                        == "SubgraphIndexingStatus"@)
                    &&& at == position
                    &&& owner@ == "Query"@
                    &&& name@ == field@
                },
                Err(QueryExecutionError::Unimplemented { field: name }) => {
                    &&& parent is Some
                    &&& name@ == field@
                },
            },
    {
        let name = field.to_owned();
        match parent {
            None => {
                if name == "indexingStatuses".to_owned() && object_type.to_owned()
                    == "SubgraphIndexingStatus".to_owned() {
                    Ok(ObjectsQuery::IndexingStatuses)
                } else {
                    Err(
                        QueryExecutionError::UnknownField {
                            position,
                            owner: "Query".to_owned(),
                            field: name,
                        },
                    )
                }
            },
            Some(_) => Err(QueryExecutionError::Unimplemented { field: name }),
        }
    }

    /// The object of a field: always null.
    pub fn resolve_object(&self) -> (resolved: Result<Value, QueryExecutionError>)
        ensures
            resolved == Ok::<Value, QueryExecutionError>(Value::Null),
    {
        Ok(Value::Null)
    }
}

impl<R, S> Clone for IndexNodeResolver<R, S> {
    /// A resolver on the same query runner and the same store.
    fn clone(&self) -> (copy: Self)
        ensures
            copy == *self,
    {
        Self { graphql_runner: share(&self.graphql_runner), store: share(&self.store) }
    }
}

} // verus!
