//! Hierarchical keys: an ordered path of kind and identifier segments.

use vstd::prelude::*;

verus! {

/// The identifier of one path segment: a numeric id or a string name.
#[derive(Debug, PartialEq, Eq)]
pub enum IdType {
    Id(i64),
    Name(String),
}

/// One segment of a key's path. A segment without an identifier stands for
/// an entity whose id the server has yet to assign.
#[derive(Debug, PartialEq, Eq, Default)]
pub struct PathElement {
    pub kind: String,
    pub id_type: Option<IdType>,
}

/// The part of the store that a key lies in. An empty identifier stands
/// for the default: the project of the request, its default database, the
/// default namespace.
#[derive(Debug, PartialEq, Eq, Default)]
pub struct PartitionId {
    pub project_id: String,
    pub database_id: String,
    pub namespace_id: String,
}

/// An entity's identifier. The first segment names the entity's kind. The
/// partition is carried along as it came and never read.
#[derive(Debug, PartialEq, Eq, Default)]
pub struct Key {
    pub partition_id: Option<PartitionId>,
    pub path: Vec<PathElement>,
}

/// The mathematical value of an [`IdType`].
pub enum IdTypeView {
    Id(i64),
    Name(Seq<char>),
}

/// The mathematical value of a [`PathElement`].
pub struct PathElementView {
    pub kind: Seq<char>,
    pub id_type: Option<IdTypeView>,
}

/// The mathematical value of a [`PartitionId`].
pub struct PartitionIdView {
    pub project_id: Seq<char>,
    pub database_id: Seq<char>,
    pub namespace_id: Seq<char>,
}

/// The mathematical value of a [`Key`].
pub struct KeyView {
    pub partition_id: Option<PartitionIdView>,
    pub path: Seq<PathElementView>,
}

impl View for IdType {
    type V = IdTypeView;

    open spec fn view(&self) -> IdTypeView {
        match self {
            IdType::Id(id) => IdTypeView::Id(*id),
            IdType::Name(name) => IdTypeView::Name(name@),
        }
    }
}

impl View for PathElement {
    type V = PathElementView;

    open spec fn view(&self) -> PathElementView {
        PathElementView {
            kind: self.kind@,
            id_type: match self.id_type {
                Some(id) => Some(id@),
                None => None,
            },
        }
    }
}

impl View for PartitionId {
    type V = PartitionIdView;

    open spec fn view(&self) -> PartitionIdView {
        PartitionIdView {
            project_id: self.project_id@,
            database_id: self.database_id@,
            namespace_id: self.namespace_id@,
        }
    }
}

impl View for Key {
    type V = KeyView;

    open spec fn view(&self) -> KeyView {
        KeyView {
            partition_id: match self.partition_id {
                Some(partition) => Some(partition@),
                None => None,
            },
            path: self.path@.map_values(|e: PathElement| e@),
        }
    }
}

impl Clone for IdType {
    /// A copy of the same value.
    fn clone(&self) -> (copy: IdType)
        ensures
            copy@ == self@,
    {
        match self {
            IdType::Id(id) => IdType::Id(*id),
            IdType::Name(name) => IdType::Name(name.clone()),
        }
    }
}

impl Clone for PathElement {
    /// A copy of the same value.
    fn clone(&self) -> (copy: PathElement)
        ensures
            copy@ == self@,
    {
        let id_type = match &self.id_type {
            Some(id) => Some(id.clone()),
            None => None,
        };
        PathElement { kind: self.kind.clone(), id_type }
    }
}

impl Clone for PartitionId {
    /// A copy of the same value.
    fn clone(&self) -> (copy: PartitionId)
        ensures
            copy@ == self@,
    {
        PartitionId {
            project_id: self.project_id.clone(),
            database_id: self.database_id.clone(),
            namespace_id: self.namespace_id.clone(),
        }
    }
}

impl Clone for Key {
    /// A copy of the same value: the same partition, and the same segments
    /// in the same order.
    fn clone(&self) -> (copy: Key)
        ensures
            copy@ == self@,
    {
        let partition_id = match &self.partition_id {
            Some(partition) => Some(partition.clone()),
            None => None,
        };
        let mut path: Vec<PathElement> = Vec::new();
        let mut i: usize = 0;
        while i < self.path.len()
            invariant
                i <= self.path@.len(),
                path@.len() == i,
                forall|j: int| 0 <= j < i ==> (#[trigger] path@[j])@ == self.path@[j]@,
            decreases self.path@.len() - i,
        {
            path.push(self.path[i].clone());
            i += 1;
        }
        let copy = Key { partition_id, path };
        assert(copy@.path =~= self@.path);
        copy
    }
}

impl KeyView {
    /// The kind of the first segment, if there is one.
    pub open spec fn kind(self) -> Option<Seq<char>> {
        if self.path.len() > 0 {
            Some(self.path[0].kind)
        } else {
            None
        }
    }

    /// The string name of the first segment, if there is one and it is named.
    pub open spec fn name(self) -> Option<Seq<char>> {
        if self.path.len() > 0 {
            match self.path[0].id_type {
                Some(IdTypeView::Name(name)) => Some(name),
                _ => None,
            }
        } else {
            None
        }
    }
}

/// Why a key could not be read.
#[derive(Debug)]
pub struct KeyError(String);

impl View for KeyError {
    type V = Seq<char>;

    closed spec fn view(&self) -> Seq<char> {
        self.0@
    }
}

impl KeyError {
    /// The message of a key whose path is empty.
    pub open spec fn no_path() -> Seq<char> {
        "Key has no path"@
    }

    /// The message of a key whose first segment carries no string name.
    pub open spec fn no_name() -> Seq<char> {
        "Key has no name"@
    }

    /// The error's text.
    pub fn to_string(&self) -> (text: String)
        ensures
            text@ == self@,
    {
        self.0.clone()
    }
}

impl Key {
    /// The kind of the first path segment.
    pub fn kind(&self) -> (result: Result<&str, KeyError>)
        ensures
            match result {
                Ok(kind) => self@.kind() == Some(kind@),
                Err(e) => self@.kind() is None && e@ == KeyError::no_path(),
            },
    {
        if self.path.len() == 0 {
            return Err(KeyError("Key has no path".to_owned()));
        }
        Ok(self.path[0].kind.as_str())
    }

    /// The string name of the first path segment.
    pub fn name(&self) -> (result: Result<&str, KeyError>)
        ensures
            match result {
                Ok(name) => self@.name() == Some(name@),
                Err(e) => self@.name() is None && e@ == if self@.path.len() == 0 {
                    KeyError::no_path()
                } else {
                    KeyError::no_name()
                },
            },
    {
        if self.path.len() == 0 {
            return Err(KeyError("Key has no path".to_owned()));
        }
        match &self.path[0].id_type {
            Some(IdType::Name(name)) => Ok(name.as_str()),
            _ => Err(KeyError("Key has no name".to_owned())),
        }
    }
}

} // verus!
