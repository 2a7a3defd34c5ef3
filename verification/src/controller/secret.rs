//! Secrets as the controller sees them: a name, an owner and a mapping from
//! keys to bytes.

use vstd::prelude::*;

verus! {

/// The mapping that a sequence of entries stands for: a later entry replaces
/// an earlier one with the same key.
pub open spec fn entries_map(entries: Seq<(String, Vec<u8>)>) -> Map<Seq<char>, Seq<u8>>
    decreases entries.len(),
{
    if entries.len() == 0 {
        Map::empty()
    } else {
        entries_map(entries.drop_last()).insert(entries.last().0@, entries.last().1@)
    }
}

/// Every entry's key is a key of the mapping.
pub proof fn lemma_entry_key_in_map(entries: Seq<(String, Vec<u8>)>, i: int)
    requires
        0 <= i < entries.len(),
    ensures
        entries_map(entries).contains_key(entries[i].0@),
    decreases entries.len(),
{
    if i < entries.len() - 1 {
        lemma_entry_key_in_map(entries.drop_last(), i);
    }
}

/// Every key of the mapping is the key of some entry.
pub proof fn lemma_map_key_from_entry(entries: Seq<(String, Vec<u8>)>, key: Seq<char>)
    requires
        entries_map(entries).contains_key(key),
    ensures
        exists|i: int| 0 <= i < entries.len() && (#[trigger] entries[i]).0@ == key,
    decreases entries.len(),
{
    if entries.len() > 0 && entries.last().0@ != key {
        lemma_map_key_from_entry(entries.drop_last(), key);
    }
}

/// The mapping of a sequence of entries has finitely many keys.
pub proof fn lemma_entries_map_finite(entries: Seq<(String, Vec<u8>)>)
    ensures
        entries_map(entries).dom().finite(),
    decreases entries.len(),
{
    if entries.len() > 0 {
        lemma_entries_map_finite(entries.drop_last());
    }
}

/// Whether two byte strings hold the same bytes.
pub fn bytes_eq(a: &Vec<u8>, b: &Vec<u8>) -> (same: bool)
    ensures
        same == (a@ == b@),
{
    if a.len() != b.len() {
        return false;
    }
    let mut i: usize = 0;
    while i < a.len()
        invariant
            a.len() == b.len(),
            i <= a.len(),
            forall|j: int| 0 <= j < i ==> a@[j] == b@[j],
        decreases a.len() - i,
    {
        if a[i] != b[i] {
            return false;
        }
        i = i + 1;
    }
    assert(a@ =~= b@);
    true
}

/// A copy of a byte string.
pub fn bytes_clone(a: &Vec<u8>) -> (copy: Vec<u8>)
    ensures
        copy@ == a@,
{
    let mut copy: Vec<u8> = Vec::new();
    let mut i: usize = 0;
    while i < a.len()
        invariant
            i <= a.len(),
            copy@ == a@.take(i as int),
        decreases a.len() - i,
    {
        copy.push(a[i]);
        i = i + 1;
    }
    copy
}

/// The payload of a secret: a finite mapping from keys to bytes.
#[derive(Debug)]
pub struct SecretData {
    entries: Vec<(String, Vec<u8>)>,
}

impl View for SecretData {
    type V = Map<Seq<char>, Seq<u8>>;

    closed spec fn view(&self) -> Map<Seq<char>, Seq<u8>> {
        entries_map(self.entries@)
    }
}

impl SecretData {
    /// The empty payload.
    pub fn new() -> (data: Self)
        ensures
            data@ == Map::<Seq<char>, Seq<u8>>::empty(),
    {
        SecretData { entries: Vec::new() }
    }

    /// The payload that `entries` stand for, a later entry replacing an
    /// earlier one with the same key.
    pub fn from_entries(entries: Vec<(String, Vec<u8>)>) -> (data: Self)
        ensures
            data@ == entries_map(entries@),
    {
        SecretData { entries }
    }

    /// Entries that stand for this payload.
    pub fn into_entries(self) -> (entries: Vec<(String, Vec<u8>)>)
        ensures
            entries_map(entries@) == self@,
    {
        self.entries
    }

    /// Sets `key` to `value`, replacing what `key` held.
    pub fn insert(&mut self, key: String, value: Vec<u8>)
        ensures
            final(self)@ == old(self)@.insert(key@, value@),
    {
        let ghost before = self.entries@;
        self.entries.push((key, value));
        assert(self.entries@.drop_last() =~= before);
    }

    /// The bytes that `key` holds, if it is a key of the payload.
    pub fn get(&self, key: &String) -> (value: Option<&Vec<u8>>)
        ensures
            match value {
                Some(bytes) => self@.contains_key(key@) && bytes@ == self@[key@],
                None => !self@.contains_key(key@),
            },
    {
        let mut found: Option<&Vec<u8>> = None;
        let mut i: usize = 0;
        while i < self.entries.len()
            invariant
                i <= self.entries.len(),
                match found {
                    Some(bytes) => entries_map(self.entries@.take(i as int)).contains_key(key@)
                        && bytes@ == entries_map(self.entries@.take(i as int))[key@],
                    None => !entries_map(self.entries@.take(i as int)).contains_key(key@),
                },
            decreases self.entries.len() - i,
        {
            assert(self.entries@.take(i + 1).drop_last() =~= self.entries@.take(i as int));
            if self.entries[i].0 == *key {
                found = Some(&self.entries[i].1);
            }
            i = i + 1;
        }
        assert(self.entries@.take(self.entries.len() as int) =~= self.entries@);
        found
    }

    /// Whether the payload has no entry.
    pub fn is_empty(&self) -> (empty: bool)
        ensures
            empty == (self@.len() == 0),
            empty == (self@ == Map::<Seq<char>, Seq<u8>>::empty()),
    {
        proof {
            lemma_entries_map_finite(self.entries@);
            if self.entries.len() > 0 {
                lemma_entry_key_in_map(self.entries@, 0);
            }
        }
        self.entries.len() == 0
    }

    /// Whether every key of `self` is a key of `other` with the same bytes.
    fn included_in(&self, other: &SecretData) -> (included: bool)
        ensures
            included == (forall|key: Seq<char>| #[trigger]
                self@.contains_key(key) ==> other@.contains_key(key) && other@[key]
                    == self@[key]),
    {
        let mut i: usize = 0;
        while i < self.entries.len()
            invariant
                i <= self.entries.len(),
                forall|j: int|
                    0 <= j < i ==> other@.contains_key((#[trigger] self.entries@[j]).0@)
                        && other@[self.entries@[j].0@] == self@[self.entries@[j].0@],
            decreases self.entries.len() - i,
        {
            proof {
                lemma_entry_key_in_map(self.entries@, i as int);
            }
            let mine = self.get(&self.entries[i].0);
            let theirs = other.get(&self.entries[i].0);
            match (mine, theirs) {
                (Some(a), Some(b)) => {
                    if !bytes_eq(a, b) {
                        return false;
                    }
                },
                _ => {
                    return false;
                },
            }
            i = i + 1;
        }
        proof {
            assert forall|key: Seq<char>| #[trigger] self@.contains_key(key) implies other@.contains_key(
                key,
            ) && other@[key] == self@[key] by {
                lemma_map_key_from_entry(self.entries@, key);
            }
        }
        true
    }

    /// Whether two payloads hold the same bytes under the same keys.
    pub fn same_as(&self, other: &SecretData) -> (same: bool)
        ensures
            same == (self@ == other@),
    {
        let same = self.included_in(other) && other.included_in(self);
        proof {
            if same {
                assert(self@ =~= other@);
            }
        }
        same
    }
}

impl Clone for SecretData {
    fn clone(&self) -> (copy: Self)
        ensures
            copy@ == self@,
    {
        let mut entries: Vec<(String, Vec<u8>)> = Vec::new();
        let mut i: usize = 0;
        while i < self.entries.len()
            invariant
                i <= self.entries.len(),
                entries_map(entries@) == entries_map(self.entries@.take(i as int)),
            decreases self.entries.len() - i,
        {
            let ghost before = entries@;
            entries.push((self.entries[i].0.clone(), bytes_clone(&self.entries[i].1)));
            assert(entries@.drop_last() =~= before);
            assert(self.entries@.take(i + 1).drop_last() =~= self.entries@.take(i as int));
            i = i + 1;
        }
        assert(self.entries@.take(self.entries.len() as int) =~= self.entries@);
        SecretData { entries }
    }
}


impl DeepView for SecretData {
    type V = Map<Seq<char>, Seq<u8>>;

    open spec fn deep_view(&self) -> Map<Seq<char>, Seq<u8>> {
        self@
    }
}

impl PartialEq for SecretData {
    fn eq(&self, other: &Self) -> (same: bool) {
        self.same_as(other)
    }
}

impl Eq for SecretData {

}

impl vstd::std_specs::cmp::PartialEqSpecImpl for SecretData {
    open spec fn obeys_eq_spec() -> bool {
        true
    }

    open spec fn eq_spec(&self, other: &Self) -> bool {
        self@ == other@
    }
}

/// Whether two optional payloads are both absent or hold the same entries.
pub fn data_eq(a: &Option<SecretData>, b: &Option<SecretData>) -> (same: bool)
    ensures
        same == (a.deep_view() == b.deep_view()),
{
    match (a, b) {
        (None, None) => true,
        (Some(x), Some(y)) => x.same_as(y),
        _ => false,
    }
}

/// A copy of an optional payload.
pub fn data_clone(a: &Option<SecretData>) -> (copy: Option<SecretData>)
    ensures
        copy.deep_view() == a.deep_view(),
{
    match a {
        Some(data) => Some(data.clone()),
        None => None,
    }
}

/// The resource that owns another and whose deletion takes it along.
#[derive(Debug, PartialEq, Eq)]
pub struct OwnerReference {
    pub api_version: String,
    pub kind: String,
    pub name: String,
    pub uid: String,
}

/// The mathematical view of `OwnerReference`, over which contracts are stated.
pub struct OwnerReferenceView {
    pub api_version: Seq<char>,
    pub kind: Seq<char>,
    pub name: Seq<char>,
    pub uid: Seq<char>,
}

impl View for OwnerReference {
    type V = OwnerReferenceView;

    open spec fn view(&self) -> OwnerReferenceView {
        OwnerReferenceView {
            api_version: self.api_version@,
            kind: self.kind@,
            name: self.name@,
            uid: self.uid@,
        }
    }
}

impl DeepView for OwnerReference {
    type V = OwnerReferenceView;

    open spec fn deep_view(&self) -> OwnerReferenceView {
        self@
    }
}

impl Clone for OwnerReference {
    fn clone(&self) -> (copy: Self)
        ensures
            copy@ == self@,
    {
        OwnerReference {
            api_version: self.api_version.clone(),
            kind: self.kind.clone(),
            name: self.name.clone(),
            uid: self.uid.clone(),
        }
    }
}

/// A pointer to a stored resource, as events carry it.
#[derive(Debug, PartialEq, Eq)]
pub struct ObjectReference {
    pub api_version: String,
    pub kind: String,
    pub namespace: String,
    pub name: String,
    pub uid: Option<String>,
}

/// The mathematical view of `ObjectReference`, over which contracts are stated.
pub struct ObjectReferenceView {
    pub api_version: Seq<char>,
    pub kind: Seq<char>,
    pub namespace: Seq<char>,
    pub name: Seq<char>,
    pub uid: Option<Seq<char>>,
}

impl View for ObjectReference {
    type V = ObjectReferenceView;

    open spec fn view(&self) -> ObjectReferenceView {
        ObjectReferenceView {
            api_version: self.api_version@,
            kind: self.kind@,
            namespace: self.namespace@,
            name: self.name@,
            uid: self.uid.deep_view(),
        }
    }
}

impl DeepView for ObjectReference {
    type V = ObjectReferenceView;

    open spec fn deep_view(&self) -> ObjectReferenceView {
        self@
    }
}

impl Clone for ObjectReference {
    fn clone(&self) -> (copy: Self)
        ensures
            copy@ == self@,
    {
        ObjectReference {
            api_version: self.api_version.clone(),
            kind: self.kind.clone(),
            namespace: self.namespace.clone(),
            name: self.name.clone(),
            uid: match &self.uid {
                Some(uid) => Some(uid.clone()),
                None => None,
            },
        }
    }
}

/// A secret of the cluster, reduced to what the controller reads and writes.
#[derive(Debug, PartialEq, Eq)]
pub struct Secret {
    pub namespace: String,
    pub name: String,
    pub uid: Option<String>,
    pub owner_references: Vec<OwnerReference>,
    pub data: Option<SecretData>,
}

/// The mathematical view of `Secret`, over which contracts are stated.
pub struct SecretView {
    pub namespace: Seq<char>,
    pub name: Seq<char>,
    pub uid: Option<Seq<char>>,
    pub owner_references: Seq<OwnerReferenceView>,
    pub data: Option<Map<Seq<char>, Seq<u8>>>,
}

impl View for Secret {
    type V = SecretView;

    open spec fn view(&self) -> SecretView {
        SecretView {
            namespace: self.namespace@,
            name: self.name@,
            uid: self.uid.deep_view(),
            owner_references: self.owner_references.deep_view(),
            data: self.data.deep_view(),
        }
    }
}

impl DeepView for Secret {
    type V = SecretView;

    open spec fn deep_view(&self) -> SecretView {
        self@
    }
}

impl SecretView {
    /// The reference by which an event points at this secret.
    pub open spec fn object_ref(self) -> ObjectReferenceView {
        ObjectReferenceView {
            api_version: "v1"@,
            kind: "Secret"@,
            namespace: self.namespace,
            name: self.name,
            uid: self.uid,
        }
    }
}

impl Secret {
    /// The reference by which an event points at this secret.
    pub fn object_ref(&self) -> (reference: ObjectReference)
        ensures
            reference@ == self@.object_ref(),
    {
        ObjectReference {
            api_version: "v1".to_owned(),
            kind: "Secret".to_owned(),
            namespace: self.namespace.clone(),
            name: self.name.clone(),
            uid: match &self.uid {
                Some(uid) => Some(uid.clone()),
                None => None,
            },
        }
    }
}

impl Clone for Secret {
    fn clone(&self) -> (copy: Self)
        ensures
            copy@ == self@,
    {
        let mut owner_references: Vec<OwnerReference> = Vec::new();
        let mut i: usize = 0;
        while i < self.owner_references.len()
            invariant
                i <= self.owner_references.len(),
                owner_references@.len() == i,
                owner_references.deep_view() == self.owner_references.deep_view().take(i as int),
            decreases self.owner_references.len() - i,
        {
            let ghost before = owner_references.deep_view();
            owner_references.push(self.owner_references[i].clone());
            assert forall|j: int| 0 <= j < i + 1 implies #[trigger] owner_references.deep_view()[j]
                == self.owner_references.deep_view()[j] by {
                if j < i {
                    assert(before[j] == self.owner_references.deep_view().take(i as int)[j]);
                }
            }
            i = i + 1;
        }
        assert(owner_references.deep_view() =~= self.owner_references.deep_view());
        Secret {
            namespace: self.namespace.clone(),
            name: self.name.clone(),
            uid: match &self.uid {
                Some(uid) => Some(uid.clone()),
                None => None,
            },
            owner_references,
            data: data_clone(&self.data),
        }
    }
}

} // verus!
