//! Allocation-bounded model catalog: caller-populated tensor storage, a sealed
//! open-addressing name index, and owner/generation checked identities.

use vstd::prelude::*;

use crate::data::{reserve_exact, MAX_NAME_BYTES, MAX_TENSORS};
use crate::tensor_type::{spec_from_wire_code, SerializedType};

pub mod ingest;

verus! {

/// Marker of an unused name-index slot.
pub const EMPTY_INDEX: u32 = 0xffff_ffff;

/// Catalog protocol or model-validation failure.
#[derive(Clone, Copy, Debug, PartialEq, Eq, Structural)]
pub enum Error {
    InvalidRequest,
    ModelInvalid,
    Capacity,
    StorageUnavailable,
    Busy,
    WrongModelIdentity,
    StaleModelIdentity,
    WrongTensorIdentity,
    StaleTensorIdentity,
    WrongNameIdentity,
    StaleNameIdentity,
    UnexpectedEvent,
    Internal,
}

/// The diagnostic text of each catalog error.
pub open spec fn error_message(error: Error) -> &'static str {
    match error {
        Error::InvalidRequest => "invalid catalog request",
        Error::ModelInvalid => "model catalog input is invalid",
        Error::Capacity => "catalog storage capacity is unavailable",
        Error::StorageUnavailable => "catalog storage is unavailable",
        Error::Busy => "catalog is busy",
        Error::WrongModelIdentity => "model identity belongs to another catalog",
        Error::StaleModelIdentity => "model identity is stale",
        Error::WrongTensorIdentity => "tensor identity belongs to another catalog",
        Error::StaleTensorIdentity => "tensor identity is stale",
        Error::WrongNameIdentity => "name identity belongs to another catalog",
        Error::StaleNameIdentity => "name identity is stale",
        Error::UnexpectedEvent => "unexpected catalog event",
        Error::Internal => "internal catalog error",
    }
}

impl Error {
    /// Returns the stable diagnostic text of this error.
    pub fn message(&self) -> (text: &'static str)
        ensures
            text@ == error_message(*self)@,
    {
        match self {
            Error::InvalidRequest => "invalid catalog request",
            Error::ModelInvalid => "model catalog input is invalid",
            Error::Capacity => "catalog storage capacity is unavailable",
            Error::StorageUnavailable => "catalog storage is unavailable",
            Error::Busy => "catalog is busy",
            Error::WrongModelIdentity => "model identity belongs to another catalog",
            Error::StaleModelIdentity => "model identity is stale",
            Error::WrongTensorIdentity => "tensor identity belongs to another catalog",
            Error::StaleTensorIdentity => "tensor identity is stale",
            Error::WrongNameIdentity => "name identity belongs to another catalog",
            Error::StaleNameIdentity => "name identity is stale",
            Error::UnexpectedEvent => "unexpected catalog event",
            Error::Internal => "internal catalog error",
        }
    }
}

/// Semantic input for one tensor record; validation happens when the model is sealed.
#[derive(Clone, Copy, Debug)]
pub struct TensorInput<'a> {
    pub name: &'a [u8],
    pub wire_type: u32,
    pub dimension_count: i32,
    pub dimensions: [i64; 4],
    pub data_size: u64,
    pub binding_present: bool,
}

impl<'a> TensorInput<'a> {
    /// Creates one raw serialized record.
    pub fn new(
        name: &'a [u8],
        wire_type: u32,
        dimension_count: i32,
        dimensions: [i64; 4],
        data_size: u64,
        binding_present: bool,
    ) -> (input: Self)
        ensures
            input.name@ == name@,
            input.wire_type == wire_type,
            input.dimension_count == dimension_count,
            input.dimensions == dimensions,
            input.data_size == data_size,
            input.binding_present == binding_present,
    {
        TensorInput { name, wire_type, dimension_count, dimensions, data_size, binding_present }
    }

    /// Returns the name length, for exact storage sizing.
    pub fn name_len(self) -> (length: usize)
        ensures
            length == self.name@.len(),
    {
        self.name.len()
    }
}

/// One stored tensor record: where its name lies in the name region, and its facts.
#[derive(Clone, Copy, Debug, Default, PartialEq, Eq)]
pub struct Record {
    pub name_offset: u32,
    pub name_length: u32,
    pub wire_type: u32,
    pub dimension_count: i32,
    pub dimensions: [i64; 4],
    pub data_size: u64,
    pub binding_present: bool,
}

/// The all-zero record.
pub open spec fn zero_record() -> Record {
    Record {
        name_offset: 0,
        name_length: 0,
        wire_type: 0,
        dimension_count: 0,
        dimensions: [0i64, 0, 0, 0],
        data_size: 0,
        binding_present: false,
    }
}

/// Abstract content of a catalog storage.
pub struct StorageView {
    pub names: Seq<u8>,
    pub records: Seq<Record>,
    pub index: Seq<u32>,
    pub tensor_count: nat,
    pub name_bytes_used: nat,
}

/// Caller-owned storage populated before it is bound to a catalog.
#[derive(Debug)]
pub struct Storage {
    names: Vec<u8>,
    records: Vec<Record>,
    index: Vec<u32>,
    tensor_count: usize,
    name_bytes_used: usize,
}

impl View for Storage {
    type V = StorageView;

    closed spec fn view(&self) -> StorageView {
        StorageView {
            names: self.names@,
            records: self.records@,
            index: self.index@,
            tensor_count: self.tensor_count as nat,
            name_bytes_used: self.name_bytes_used as nat,
        }
    }
}

/// The counters of a storage lie inside its regions.
pub open spec fn storage_counts_fit(v: StorageView) -> bool {
    &&& v.tensor_count <= v.records.len()
    &&& v.name_bytes_used <= v.names.len()
}

/// What every well-formed storage satisfies: its counters lie inside its
/// regions, the regions stay within the catalog bounds, and the name index has
/// one slot per record.
pub open spec fn storage_view_valid(v: StorageView) -> bool {
    &&& storage_counts_fit(v)
    &&& v.names.len() <= MAX_NAME_BYTES
    &&& v.records.len() <= MAX_TENSORS
    &&& v.index.len() == v.records.len()
}

/// The content of freshly allocated storage.
pub open spec fn fresh_storage(tensor_capacity: nat, name_capacity: nat, index_capacity: nat) -> StorageView {
    StorageView {
        names: Seq::new(name_capacity, |i: int| 0u8),
        records: Seq::new(tensor_capacity, |i: int| zero_record()),
        index: Seq::new(index_capacity, |i: int| EMPTY_INDEX),
        tensor_count: 0,
        name_bytes_used: 0,
    }
}

/// Capacities that `Storage::with_capacity` accepts.
pub open spec fn capacities_valid(tensor_capacity: int, name_capacity: int, index_capacity: int) -> bool {
    &&& 0 < tensor_capacity <= MAX_TENSORS
    &&& name_capacity <= MAX_NAME_BYTES
    &&& index_capacity == tensor_capacity
}

/// Whether one more record with a name of `name_length` bytes fits.
pub open spec fn push_fits(v: StorageView, name_length: int) -> bool {
    &&& v.tensor_count < v.records.len()
    &&& v.name_bytes_used + name_length <= v.names.len()
}

/// The record that `push_tensor` stores for `input` at the current name offset.
pub open spec fn pushed_record(v: StorageView, input: TensorInput) -> Record {
    Record {
        name_offset: v.name_bytes_used as u32,
        name_length: input.name@.len() as u32,
        wire_type: input.wire_type,
        dimension_count: input.dimension_count,
        dimensions: input.dimensions,
        data_size: input.data_size,
        binding_present: input.binding_present,
    }
}

/// The storage content after a successful `push_tensor`.
pub open spec fn pushed(v: StorageView, input: TensorInput) -> StorageView {
    let end = v.name_bytes_used + input.name@.len();
    StorageView {
        names: v.names.subrange(0, v.name_bytes_used as int) + input.name@ + v.names.subrange(
            end as int,
            v.names.len() as int,
        ),
        records: v.records.update(v.tensor_count as int, pushed_record(v, input)),
        index: v.index,
        tensor_count: v.tensor_count + 1,
        name_bytes_used: end as nat,
    }
}

/// The storage content after `clear`.
pub open spec fn cleared(v: StorageView) -> StorageView {
    StorageView {
        names: Seq::new(v.name_bytes_used, |i: int| 0u8) + v.names.subrange(
            v.name_bytes_used as int,
            v.names.len() as int,
        ),
        records: Seq::new(v.tensor_count, |i: int| zero_record()) + v.records.subrange(
            v.tensor_count as int,
            v.records.len() as int,
        ),
        index: Seq::new(v.index.len(), |i: int| EMPTY_INDEX),
        tensor_count: 0,
        name_bytes_used: 0,
    }
}

/// Allocates exactly `length` copies of `value`, or reports that the allocator refused.
fn filled_vec<T: Copy>(length: usize, value: T) -> (region: Result<Vec<T>, Error>)
    ensures
        match region {
            Ok(values) => values@ == Seq::new(length as nat, |i: int| value),
            Err(error) => error == Error::Capacity,
        },
{
    let mut values: Vec<T> = Vec::new();
    if reserve_exact(&mut values, length).is_err() {
        return Err(Error::Capacity);
    }
    let mut i: usize = 0;
    while i < length
        invariant
            i <= length,
            values@ == Seq::new(i as nat, |k: int| value),
        decreases length - i,
    {
        values.push(value);
        i = i + 1;
        assert(values@ =~= Seq::new(i as nat, |k: int| value));
    }
    Ok(values)
}

impl Storage {
    /// The counters lie inside the regions.
    pub closed spec fn wf(&self) -> bool {
        &&& storage_counts_fit(self@)
        &&& self.names@.len() <= MAX_NAME_BYTES
        &&& self.records@.len() <= MAX_TENSORS
        &&& self.index@.len() == self.records@.len()
    }

    /// A well-formed storage has a valid view.
    pub proof fn lemma_view_valid(&self)
        requires
            self.wf(),
        ensures
            storage_view_valid(self@),
    {
    }

    /// Allocates all bounded catalog regions; the index covers every tensor slot.
    pub fn with_capacity(tensor_capacity: usize, name_capacity: usize, index_capacity: usize) -> (storage: Result<Self, Error>)
        ensures
            !capacities_valid(tensor_capacity as int, name_capacity as int, index_capacity as int)
                ==> storage == Err::<Self, Error>(Error::Capacity),
            storage matches Ok(s) ==> s.wf() && capacities_valid(
                tensor_capacity as int,
                name_capacity as int,
                index_capacity as int,
            ) && s@ == fresh_storage(
                tensor_capacity as nat,
                name_capacity as nat,
                index_capacity as nat,
            ),
            storage matches Err(e) ==> e == Error::Capacity,
    {
        if tensor_capacity == 0 || tensor_capacity > MAX_TENSORS || name_capacity > MAX_NAME_BYTES
            || index_capacity != tensor_capacity {
            return Err(Error::Capacity);
        }
        let names = filled_vec(name_capacity, 0u8)?;
        let records = filled_vec(tensor_capacity, Record::default_record())?;
        let index = filled_vec(index_capacity, EMPTY_INDEX)?;
        let storage = Storage { names, records, index, tensor_count: 0, name_bytes_used: 0 };
        assert(storage@ == fresh_storage(
            tensor_capacity as nat,
            name_capacity as nat,
            index_capacity as nat,
        ));
        Ok(storage)
    }

    /// Appends one record and copies its name into the name region, without allocating.
    pub fn push_tensor(&mut self, input: TensorInput<'_>) -> (outcome: Result<(), Error>)
        requires
            old(self).wf(),
        ensures
            final(self).wf(),
            outcome is Ok <==> push_fits(old(self)@, input.name@.len() as int),
            outcome matches Ok(_) ==> final(self)@ == pushed(old(self)@, input),
            outcome matches Err(e) ==> e == Error::Capacity && final(self)@ == old(self)@,
    {
        if self.tensor_count >= self.records.len() {
            return Err(Error::Capacity);
        }
        let length = input.name.len();
        if length > self.names.len() - self.name_bytes_used {
            return Err(Error::Capacity);
        }
        let start = self.name_bytes_used;
        let end = start + length;
        let ghost old_names = self.names@;
        let ghost old_records = self.records@;
        let ghost old_index = self.index@;
        let ghost old_count = self.tensor_count;
        let mut k: usize = 0;
        while k < length
            invariant
                k <= length,
                start == self.name_bytes_used,
                self.records@ == old_records,
                self.index@ == old_index,
                self.tensor_count == old_count,
                old_count < old_records.len(),
                old_records.len() <= MAX_TENSORS,
                old_names.len() <= MAX_NAME_BYTES,
                start + length <= self.names@.len(),
                length == input.name@.len(),
                self.names@.len() == old_names.len(),
                forall|j: int| 0 <= j < start ==> self.names@[j] == old_names[j],
                forall|j: int| start + length <= j < old_names.len() ==> self.names@[j] == old_names[j],
                forall|j: int| 0 <= j < k ==> self.names@[start + j] == input.name@[j],
            decreases length - k,
        {
            self.names.set(start + k, input.name[k]);
            k = k + 1;
        }
        let record = Record {
            name_offset: start as u32,
            name_length: length as u32,
            wire_type: input.wire_type,
            dimension_count: input.dimension_count,
            dimensions: input.dimensions,
            data_size: input.data_size,
            binding_present: input.binding_present,
        };
        self.records.set(self.tensor_count, record);
        self.tensor_count = self.tensor_count + 1;
        self.name_bytes_used = end;
        proof {
            let v = old(self)@;
            assert(self.names@ =~= v.names.subrange(0, start as int) + input.name@ + v.names.subrange(
                end as int,
                v.names.len() as int,
            ));
            assert(self@.records =~= pushed(v, input).records);
        }
        Ok(())
    }

    /// Clears populated records and names for reuse, keeping every region's size.
    pub fn clear(&mut self)
        requires
            old(self).wf(),
        ensures
            final(self).wf(),
            final(self)@ == cleared(old(self)@),
    {
        let ghost v = self@;
        let used = self.name_bytes_used;
        let mut k: usize = 0;
        while k < used
            invariant
                k <= used,
                used <= self.names@.len(),
                self.records@ == v.records,
                self.index@ == v.index,
                self.tensor_count == v.tensor_count,
                v.tensor_count <= v.records.len(),
                self.names@.len() == v.names.len(),
                forall|j: int| 0 <= j < k ==> self.names@[j] == 0u8,
                forall|j: int| used <= j < v.names.len() ==> self.names@[j] == v.names[j],
            decreases used - k,
        {
            self.names.set(k, 0u8);
            k = k + 1;
        }
        let count = self.tensor_count;
        let ghost names_cleared = self.names@;
        let mut r: usize = 0;
        while r < count
            invariant
                r <= count,
                count <= self.records@.len(),
                self.index@ == v.index,
                self.names@ == names_cleared,
                self.records@.len() == v.records.len(),
                forall|j: int| 0 <= j < r ==> self.records@[j] == zero_record(),
                forall|j: int| count <= j < v.records.len() ==> self.records@[j] == v.records[j],
            decreases count - r,
        {
            self.records.set(r, Record::default_record());
            r = r + 1;
        }
        let n = self.index.len();
        let ghost records_cleared = self.records@;
        let mut s: usize = 0;
        while s < n
            invariant
                s <= n,
                n == self.index@.len(),
                self.names@ == names_cleared,
                self.records@ == records_cleared,
                forall|j: int| 0 <= j < s ==> self.index@[j] == EMPTY_INDEX,
            decreases n - s,
        {
            self.index.set(s, EMPTY_INDEX);
            s = s + 1;
        }
        self.tensor_count = 0;
        self.name_bytes_used = 0;
        proof {
            assert(self.names@ =~= cleared(v).names);
            assert(self.records@ =~= cleared(v).records);
            assert(self.index@ =~= cleared(v).index);
        }
    }

    /// Returns the fixed tensor capacity.
    pub fn tensor_capacity(&self) -> (capacity: usize)
        ensures
            capacity == self@.records.len(),
    {
        self.records.len()
    }

    /// Returns the fixed name-region capacity.
    pub fn name_capacity(&self) -> (capacity: usize)
        ensures
            capacity == self@.names.len(),
    {
        self.names.len()
    }
}


/// Identity of one sealed catalog generation.
#[derive(Clone, Copy, Debug, PartialEq, Eq, Structural, Hash)]
pub struct ModelIdentity {
    owner: u64,
    generation: u64,
}

impl View for ModelIdentity {
    type V = (u64, u64);

    closed spec fn view(&self) -> (u64, u64) {
        (self.owner, self.generation)
    }
}

/// Identity of one tensor of one sealed catalog generation.
#[derive(Clone, Copy, Debug, PartialEq, Eq, Structural, Hash)]
pub struct TensorId {
    owner: u64,
    generation: u64,
    ordinal: u32,
}

impl View for TensorId {
    type V = (u64, u64, u32);

    closed spec fn view(&self) -> (u64, u64, u32) {
        (self.owner, self.generation, self.ordinal)
    }
}

/// Identity of one canonical tensor name of one sealed catalog generation.
#[derive(Clone, Copy, Debug, PartialEq, Eq, Structural, Hash)]
pub struct NameId {
    owner: u64,
    generation: u64,
    ordinal: u32,
}

impl View for NameId {
    type V = (u64, u64, u32);

    closed spec fn view(&self) -> (u64, u64, u32) {
        (self.owner, self.generation, self.ordinal)
    }
}

/// Two model identities with the same view are the same identity.
pub proof fn lemma_model_identity_view_injective(a: ModelIdentity, b: ModelIdentity)
    requires
        a@ == b@,
    ensures
        a == b,
{
}

/// Two tensor identities with the same view are the same identity.
pub proof fn lemma_tensor_id_view_injective(a: TensorId, b: TensorId)
    requires
        a@ == b@,
    ensures
        a == b,
{
}

/// Two name identities with the same view are the same identity.
pub proof fn lemma_name_id_view_injective(a: NameId, b: NameId)
    requires
        a@ == b@,
    ensures
        a == b,
{
}

/// Scalar facts of a sealed model.
#[derive(Clone, Copy, Debug, PartialEq, Eq, Structural)]
pub struct ModelDescriptor {
    pub tensor_count: u32,
}

impl ModelDescriptor {
    /// Number of tensor records of the sealed model.
    pub fn tensor_count(self) -> (count: u32)
        ensures
            count == self.tensor_count,
    {
        self.tensor_count
    }
}

/// Whether a tensor's storage binding is usable.
#[derive(Clone, Copy, Debug, PartialEq, Eq, Structural)]
pub enum TensorBindingStatus {
    Bound,
    Unbound,
}

/// Semantic facts of one tensor, with its identities.
#[derive(Clone, Copy, Debug, PartialEq, Eq)]
pub struct TensorDescriptor {
    pub tensor_id: TensorId,
    pub name_id: NameId,
    pub tensor_type: SerializedType,
    pub dimension_count: i32,
    pub dimensions: [i64; 4],
    pub data_size: u64,
    pub binding_present: bool,
    pub binding_status: TensorBindingStatus,
}

impl TensorDescriptor {
    pub fn tensor_id(self) -> (id: TensorId)
        ensures
            id == self.tensor_id,
    {
        self.tensor_id
    }

    pub fn name_id(self) -> (id: NameId)
        ensures
            id == self.name_id,
    {
        self.name_id
    }

    pub fn tensor_type(self) -> (tensor_type: SerializedType)
        ensures
            tensor_type == self.tensor_type,
    {
        self.tensor_type
    }

    pub fn dimension_count(self) -> (count: i32)
        ensures
            count == self.dimension_count,
    {
        self.dimension_count
    }

    pub fn dimensions(self) -> (dimensions: [i64; 4])
        ensures
            dimensions == self.dimensions,
    {
        self.dimensions
    }

    pub fn data_size(self) -> (size: u64)
        ensures
            size == self.data_size,
    {
        self.data_size
    }

    pub fn binding_present(self) -> (present: bool)
        ensures
            present == self.binding_present,
    {
        self.binding_present
    }

    pub fn binding_status(self) -> (status: TensorBindingStatus)
        ensures
            status == self.binding_status,
    {
        self.binding_status
    }
}

/// A record's binding is usable: present, non-empty, with positive leading dimensions.
pub open spec fn record_bound(r: Record) -> bool {
    &&& r.binding_present
    &&& r.data_size > 0
    &&& r.dimension_count > 0
    &&& forall|k: int| 0 <= k < r.dimension_count && k < 4 ==> r.dimensions[k] > 0
}

/// The binding status a descriptor reports for a record.
pub open spec fn record_status(r: Record) -> TensorBindingStatus {
    if record_bound(r) {
        TensorBindingStatus::Bound
    } else {
        TensorBindingStatus::Unbound
    }
}

/// `d` describes record `r` as ordinal `ordinal` of generation `generation` of catalog `owner`.
pub open spec fn describes(d: TensorDescriptor, owner: u64, generation: u64, ordinal: int, r: Record) -> bool {
    &&& d.tensor_id@ == (owner, generation, ordinal as u32)
    &&& d.name_id@ == (owner, generation, ordinal as u32)
    &&& spec_from_wire_code(r.wire_type) == Some(d.tensor_type)
    &&& d.dimension_count == r.dimension_count
    &&& d.dimensions == r.dimensions
    &&& d.data_size == r.data_size
    &&& d.binding_present == r.binding_present
    &&& d.binding_status == record_status(r)
}

/// Moves caller-populated storage into an empty catalog.
#[derive(Debug)]
pub struct BindStorage {
    pub storage: Storage,
}

impl BindStorage {
    pub fn new(storage: Storage) -> (event: Self)
        ensures
            event.storage == storage,
    {
        BindStorage { storage }
    }
}

/// A rejected bind, which hands the storage back.
#[derive(Debug)]
pub struct BindStorageError {
    error: Error,
    storage: Storage,
}

impl BindStorageError {
    pub closed spec fn spec_error(&self) -> Error {
        self.error
    }

    pub closed spec fn spec_storage(&self) -> Storage {
        self.storage
    }

    pub fn error(&self) -> (error: Error)
        ensures
            error == self.spec_error(),
    {
        self.error
    }

    pub fn into_storage(self) -> (storage: Storage)
        ensures
            storage == self.spec_storage(),
    {
        self.storage
    }
}

/// Seals the bound storage into a queryable model generation.
#[derive(Clone, Copy, Debug, Default)]
pub struct SealModel;

impl SealModel {
    pub fn new() -> (event: Self) {
        SealModel
    }
}

/// Asks for the scalar facts of a sealed model.
#[derive(Clone, Copy, Debug)]
pub struct DescribeModel {
    pub identity: ModelIdentity,
}

impl DescribeModel {
    pub fn new(identity: ModelIdentity) -> (event: Self)
        ensures
            event.identity == identity,
    {
        DescribeModel { identity }
    }
}

/// Looks a tensor up by its exact name bytes.
#[derive(Clone, Copy, Debug)]
pub struct FindTensor<'a> {
    pub identity: ModelIdentity,
    pub name: &'a [u8],
}

impl<'a> FindTensor<'a> {
    pub fn new(identity: ModelIdentity, name: &'a [u8]) -> (event: Self)
        ensures
            event.identity == identity,
            event.name@ == name@,
    {
        FindTensor { identity, name }
    }
}

/// Asks for the facts of one tensor by identity.
#[derive(Clone, Copy, Debug)]
pub struct DescribeTensor {
    pub tensor_id: TensorId,
}

impl DescribeTensor {
    pub fn new(tensor_id: TensorId) -> (event: Self)
        ensures
            event.tensor_id == tensor_id,
    {
        DescribeTensor { tensor_id }
    }
}

/// Returns a sealed catalog to the bound state; its identities become stale at the next seal.
#[derive(Clone, Copy, Debug, Default)]
pub struct Reset;

impl Reset {
    pub fn new() -> (event: Self) {
        Reset
    }
}

/// Hands a bound catalog's storage back to the caller.
#[derive(Clone, Copy, Debug, Default)]
pub struct ReleaseStorage;

impl ReleaseStorage {
    pub fn new() -> (event: Self) {
        ReleaseStorage
    }
}

/// Lifecycle phase of a catalog.
#[derive(Clone, Copy, Debug, PartialEq, Eq, Structural)]
pub enum CatalogPhase {
    Empty,
    Bound,
    Sealed,
}

/// Abstract state of a catalog.
pub struct CatalogView {
    pub owner: u64,
    pub generation: u64,
    pub phase: CatalogPhase,
    pub storage: Option<StorageView>,
}

/// Single-writer model catalog.
#[derive(Debug)]
pub struct Catalog {
    owner: u64,
    generation: u64,
    phase: CatalogPhase,
    storage: Option<Storage>,
}

impl View for Catalog {
    type V = CatalogView;

    closed spec fn view(&self) -> CatalogView {
        CatalogView {
            owner: self.owner,
            generation: self.generation,
            phase: self.phase,
            storage: match self.storage {
                Some(s) => Some(s@),
                None => None,
            },
        }
    }
}

/// An empty catalog holds no storage; a bound or sealed one holds storage.
pub open spec fn catalog_view_valid(c: CatalogView) -> bool {
    (c.phase == CatalogPhase::Empty) == (c.storage is None)
}

/// The storage view of a catalog that holds storage.
pub open spec fn held(c: CatalogView) -> StorageView {
    c.storage.unwrap()
}

/// Outcome of a request against the sealed model, before the request itself is answered.
pub open spec fn model_query_error(c: CatalogView, identity: (u64, u64)) -> Option<Error> {
    if c.phase != CatalogPhase::Sealed {
        Some(Error::StorageUnavailable)
    } else if identity.0 != c.owner {
        Some(Error::WrongModelIdentity)
    } else if identity.1 != c.generation {
        Some(Error::StaleModelIdentity)
    } else {
        None
    }
}

/// Outcome of a request for one tensor or name identity, before it is answered.
pub open spec fn item_query_error(c: CatalogView, identity: (u64, u64, u32), wrong: Error, stale: Error) -> Option<Error> {
    if c.phase != CatalogPhase::Sealed {
        Some(Error::StorageUnavailable)
    } else if identity.0 != c.owner {
        Some(wrong)
    } else if identity.1 != c.generation || identity.2 >= held(c).tensor_count {
        Some(stale)
    } else {
        None
    }
}

/// Result and next state of binding storage `s`.
pub open spec fn bind_view(c: CatalogView, s: StorageView) -> (Result<(), Error>, CatalogView) {
    if c.phase != CatalogPhase::Empty {
        (Err(Error::Busy), c)
    } else if !storage_counts_fit(s) {
        (Err(Error::InvalidRequest), c)
    } else {
        (Ok(()), CatalogView { phase: CatalogPhase::Bound, storage: Some(s), ..c })
    }
}

/// Result and next state of releasing the storage.
pub open spec fn release_view(c: CatalogView) -> (Result<StorageView, Error>, CatalogView) {
    match c.phase {
        CatalogPhase::Bound => (Ok(held(c)), CatalogView { phase: CatalogPhase::Empty, storage: None, ..c }),
        CatalogPhase::Empty => (Err(Error::StorageUnavailable), c),
        CatalogPhase::Sealed => (Err(Error::Busy), c),
    }
}

/// Result and next state of resetting a sealed catalog: its name index is emptied.
pub open spec fn reset_view(c: CatalogView) -> (Result<(), Error>, CatalogView) {
    match c.phase {
        CatalogPhase::Sealed => (
            Ok(()),
            CatalogView {
                phase: CatalogPhase::Bound,
                storage: Some(
                    StorageView {
                        index: Seq::new(held(c).index.len(), |i: int| EMPTY_INDEX),
                        ..held(c)
                    },
                ),
                ..c
            },
        ),
        CatalogPhase::Empty => (Err(Error::StorageUnavailable), c),
        CatalogPhase::Bound => (Err(Error::InvalidRequest), c),
    }
}

/// The name bytes of record `i`.
pub open spec fn record_name(v: StorageView, i: int) -> Seq<u8> {
    let r = v.records[i];
    v.names.subrange(r.name_offset as int, r.name_offset + r.name_length)
}

/// Record `i`'s name lies inside the used part of the name region.
pub open spec fn name_range_valid(v: StorageView, i: int) -> bool {
    v.records[i].name_offset + v.records[i].name_length <= v.name_bytes_used
}

/// Record `i` has a valid name range and a known tensor type.
pub open spec fn record_valid(v: StorageView, i: int) -> bool {
    &&& name_range_valid(v, i)
    &&& spec_from_wire_code(v.records[i].wire_type) is Some
}

/// The stored model cannot be sealed: it is empty or holds an invalid record.
pub open spec fn model_invalid(v: StorageView) -> bool {
    v.tensor_count == 0 || exists|i: int| 0 <= i < v.tensor_count && !record_valid(v, i)
}

/// The identity a seal of `c` hands out, or why it is refused.
pub open spec fn seal_result(c: CatalogView) -> Result<(u64, u64), Error> {
    match c.phase {
        CatalogPhase::Empty => Err(Error::StorageUnavailable),
        CatalogPhase::Sealed => Err(Error::Busy),
        CatalogPhase::Bound => if c.generation == u64::MAX || held(c).tensor_count > held(c).index.len() {
            Err(Error::Capacity)
        } else if model_invalid(held(c)) {
            Err(Error::ModelInvalid)
        } else {
            Ok((c.owner, (c.generation + 1) as u64))
        },
    }
}

/// `after` is a state that sealing `c` may leave: on success only the name index,
/// the phase and the generation change; on failure nothing does.
pub open spec fn seal_post(c: CatalogView, after: CatalogView) -> bool {
    if seal_result(c) is Ok {
        &&& after.owner == c.owner
        &&& after.generation == c.generation + 1
        &&& after.phase == CatalogPhase::Sealed
        &&& after.storage is Some
        &&& held(after).names == held(c).names
        &&& held(after).records == held(c).records
        &&& held(after).tensor_count == held(c).tensor_count
        &&& held(after).name_bytes_used == held(c).name_bytes_used
        &&& held(after).index.len() == held(c).index.len()
    } else {
        after == c
    }
}

/// Record `i` is the first record named `name`.
pub open spec fn first_named(v: StorageView, i: int, name: Seq<u8>) -> bool {
    &&& 0 <= i < v.tensor_count
    &&& record_name(v, i) == name
    &&& forall|j: int| 0 <= j < i ==> record_name(v, j) != name
}

/// No record is named `name`.
pub open spec fn none_named(v: StorageView, name: Seq<u8>) -> bool {
    forall|i: int| 0 <= i < v.tensor_count ==> record_name(v, i) != name
}

/// FNV-1a offset basis.
pub const FNV_OFFSET: u64 = 0xcbf2_9ce4_8422_2325;

/// FNV-1a prime.
pub const FNV_PRIME: u64 = 0x0000_0100_0000_01b3;

/// One FNV-1a step: mix in a byte, then multiply modulo 2^64.
pub open spec fn fnv_step(hash: u64, byte: u8) -> u64 {
    vstd::wrapping::u64_specs::wrapping_mul(hash ^ (byte as u64), FNV_PRIME)
}

/// The 64-bit FNV-1a hash of a name.
pub open spec fn name_hash(name: Seq<u8>) -> u64
    decreases name.len(),
{
    if name.len() == 0 {
        FNV_OFFSET
    } else {
        fnv_step(name_hash(name.drop_last()), name.last())
    }
}

/// Computes the 64-bit FNV-1a hash of `name`.
fn hash_name(name: &[u8]) -> (hash: u64)
    ensures
        hash == name_hash(name@),
{
    let mut hash: u64 = FNV_OFFSET;
    let mut k: usize = 0;
    while k < name.len()
        invariant
            k <= name@.len(),
            hash == name_hash(name@.subrange(0, k as int)),
        decreases name@.len() - k,
    {
        assert(name@.subrange(0, k + 1).drop_last() =~= name@.subrange(0, k as int));
        hash = (hash ^ (name[k] as u64)).wrapping_mul(FNV_PRIME);
        k = k + 1;
    }
    assert(name@.subrange(0, name@.len() as int) =~= name@);
    hash
}

/// Slot `s` of the name index holds an ordinal.
spec fn filled(v: StorageView, s: int) -> bool {
    v.index[s] != EMPTY_INDEX
}

/// The name of the record held in slot `s`.
spec fn slot_name(v: StorageView, s: int) -> Seq<u8> {
    record_name(v, v.index[s] as int)
}

/// Home slot of a name in an index of `m` slots.
spec fn home_of(name: Seq<u8>, m: int) -> int {
    (name_hash(name) as int) % m
}

/// The slot probed `d` steps after `h`, wrapping around `m` slots.
spec fn probe_at(h: int, d: int, m: int) -> int {
    if h + d < m {
        h + d
    } else {
        h + d - m
    }
}

/// Number of probe steps from `h` to `s` in `m` slots.
spec fn probe_distance(h: int, s: int, m: int) -> int {
    if s >= h {
        s - h
    } else {
        s + m - h
    }
}

/// Record `i` is the first record carrying its name.
spec fn is_first(v: StorageView, i: int) -> bool {
    &&& 0 <= i < v.tensor_count
    &&& forall|j: int| 0 <= j < i ==> record_name(v, j) != record_name(v, i)
}

/// Number of filled slots of an index.
spec fn count_filled(index: Seq<u32>) -> nat
    decreases index.len(),
{
    if index.len() == 0 {
        0
    } else {
        count_filled(index.drop_last()) + if index.last() != EMPTY_INDEX {
            1nat
        } else {
            0nat
        }
    }
}

/// Every slot on the probe path from the home of slot `s`'s name up to `s` is filled.
spec fn path_filled(v: StorageView, s: int) -> bool {
    let m = v.index.len() as int;
    let h = home_of(slot_name(v, s), m);
    forall|d: int| 0 <= d < probe_distance(h, s, m) ==> #[trigger] filled(v, probe_at(h, d, m))
}

/// The name index holds exactly the first records among ordinals below `upto`,
/// each reachable from its home slot through filled slots.
spec fn index_wf(v: StorageView, upto: int) -> bool {
    let m = v.index.len() as int;
    &&& forall|s: int| 0 <= s < m && #[trigger] filled(v, s) ==> v.index[s] < upto && is_first(v, v.index[s] as int)
    &&& forall|i: int| 0 <= i < upto && #[trigger] is_first(v, i) ==> exists|s: int| 0 <= s < m && v.index[s] == i
    &&& forall|s: int| 0 <= s < m && #[trigger] filled(v, s) ==> path_filled(v, s)
    &&& count_filled(v.index) <= upto
}

/// The probes `0..k` from `h` all met filled slots holding other names than `name`.
spec fn probed_mismatch(v: StorageView, name: Seq<u8>, h: int, k: int) -> bool {
    let m = v.index.len() as int;
    forall|d: int| 0 <= d < k ==> #[trigger] filled(v, probe_at(h, d, m)) && slot_name(v, probe_at(h, d, m)) != name
}

/// Filled slots hold ordinals of records whose names lie in the used name bytes.
spec fn entries_valid(v: StorageView) -> bool {
    forall|s: int| 0 <= s < v.index.len() && #[trigger] filled(v, s) ==> v.index[s] < v.tensor_count && name_range_valid(v, v.index[s] as int)
}

/// All records are valid and the index can hold every ordinal.
spec fn sealable(v: StorageView) -> bool {
    &&& !model_invalid(v)
    &&& v.tensor_count <= v.index.len()
}

proof fn lemma_count_filled_bounds(index: Seq<u32>)
    ensures
        count_filled(index) <= index.len(),
        (forall|s: int| 0 <= s < index.len() ==> index[s] != EMPTY_INDEX) ==> count_filled(index) == index.len(),
        (forall|s: int| 0 <= s < index.len() ==> index[s] == EMPTY_INDEX) ==> count_filled(index) == 0,
    decreases index.len(),
{
    if index.len() > 0 {
        lemma_count_filled_bounds(index.drop_last());
    }
}

proof fn lemma_count_filled_update(index: Seq<u32>, s: int, value: u32)
    requires
        0 <= s < index.len(),
        index[s] == EMPTY_INDEX,
        value != EMPTY_INDEX,
    ensures
        count_filled(index.update(s, value)) == count_filled(index) + 1,
    decreases index.len(),
{
    let updated = index.update(s, value);
    if s == index.len() - 1 {
        assert(updated.drop_last() =~= index.drop_last());
    } else {
        assert(updated.drop_last() =~= index.drop_last().update(s, value));
        lemma_count_filled_update(index.drop_last(), s, value);
    }
}

/// Probing `distance(h, s)` steps from `h` reaches `s`.
proof fn lemma_probe_distance(h: int, s: int, m: int)
    requires
        0 <= h < m,
        0 <= s < m,
    ensures
        0 <= probe_distance(h, s, m) < m,
        probe_at(h, probe_distance(h, s, m), m) == s,
{
}

/// A record named `name` has a first record named `name` at or before it.
proof fn lemma_first_of_name(v: StorageView, i: int)
    requires
        0 <= i < v.tensor_count,
    ensures
        exists|j: int| 0 <= j <= i && is_first(v, j) && record_name(v, j) == record_name(v, i),
    decreases i,
{
    if !is_first(v, i) {
        let j = choose|j: int| 0 <= j < i && record_name(v, j) == record_name(v, i);
        lemma_first_of_name(v, j);
    } else {
        assert(is_first(v, i) && record_name(v, i) == record_name(v, i));
    }
}

/// A probe sequence that stops at an empty slot, or exhausts every slot, without meeting
/// `name` shows that no first record below `upto` carries `name`.
proof fn lemma_probe_absent(v: StorageView, upto: int, name: Seq<u8>, k: int)
    requires
        v.index.len() > 0,
        v.tensor_count <= MAX_TENSORS,
        index_wf(v, upto),
        probed_mismatch(v, name, home_of(name, v.index.len() as int), k),
        0 <= k <= v.index.len(),
        k < v.index.len() ==> !filled(v, probe_at(home_of(name, v.index.len() as int), k, v.index.len() as int)),
    ensures
        forall|i: int| 0 <= i < upto && is_first(v, i) ==> record_name(v, i) != name,
{
    let m = v.index.len() as int;
    let h = home_of(name, m);
    assert(0 <= h < m) by {
        vstd::arithmetic::div_mod::lemma_mod_bound(name_hash(name) as int, m);
    }
    assert forall|i: int| 0 <= i < upto && is_first(v, i) implies record_name(v, i) != name by {
        if record_name(v, i) == name {
            let s = choose|s: int| 0 <= s < m && v.index[s] == i;
            assert(filled(v, s));
            assert(slot_name(v, s) == name);
            lemma_probe_distance(h, s, m);
            let dist = probe_distance(h, s, m);
            if dist < k {
                assert(filled(v, probe_at(h, dist, m)));
            } else if dist == k {
                assert(k < m);
            } else {
                assert(path_filled(v, s));
                assert(filled(v, probe_at(h, k, m)));
            }
        }
    }
}

/// No first record named `name` means no record at all is named `name`.
proof fn lemma_none_named(v: StorageView, name: Seq<u8>)
    requires
        forall|i: int| 0 <= i < v.tensor_count && is_first(v, i) ==> record_name(v, i) != name,
    ensures
        none_named(v, name),
{
    assert forall|i: int| 0 <= i < v.tensor_count implies record_name(v, i) != name by {
        lemma_first_of_name(v, i);
    }
}

/// Storages that agree on names and records agree on record names and first records.
proof fn lemma_same_records(v: StorageView, w: StorageView)
    requires
        v.names == w.names,
        v.records == w.records,
        v.tensor_count == w.tensor_count,
    ensures
        forall|j: int| #[trigger] record_name(w, j) == record_name(v, j),
        forall|x: int| #[trigger] is_first(w, x) == is_first(v, x),
{
    assert forall|j: int| #[trigger] record_name(w, j) == record_name(v, j) by {}
    assert forall|x: int| #[trigger] is_first(w, x) == is_first(v, x) by {
        if is_first(v, x) {
            assert forall|j: int| 0 <= j < x implies record_name(w, j) != record_name(w, x) by {
                assert(record_name(v, j) != record_name(v, x));
            }
        }
        if is_first(w, x) {
            assert forall|j: int| 0 <= j < x implies record_name(v, j) != record_name(v, x) by {
                assert(record_name(w, j) != record_name(w, x));
            }
        }
    }
}

/// Replacing only the name index keeps a storage sealable.
proof fn lemma_sealable_index_free(v: StorageView, w: StorageView)
    requires
        sealable(v),
        w == (StorageView { index: w.index, ..v }),
        w.index.len() == v.index.len(),
    ensures
        sealable(w),
{
    assert forall|i: int| 0 <= i < w.tensor_count implies record_valid(w, i) by {
        lemma_record_valid(v, i);
    }
}

/// Every record of a sealable model is valid.
proof fn lemma_record_valid(v: StorageView, i: int)
    requires
        !model_invalid(v),
        0 <= i < v.tensor_count,
    ensures
        record_valid(v, i),
{
}

/// Outcome of probing the name index for one name.
enum Probe {
    Vacant { slot: usize, step: usize },
    Occupied { slot: usize },
    Exhausted,
}

/// Whether a record's binding is usable.
fn record_is_bound(r: &Record) -> (bound: bool)
    ensures
        bound == record_bound(*r),
{
    if !r.binding_present || r.data_size == 0 || r.dimension_count <= 0 {
        return false;
    }
    let n: usize = if r.dimension_count < 4 {
        r.dimension_count as usize
    } else {
        4
    };
    let mut k: usize = 0;
    while k < n
        invariant
            k <= n,
            n <= 4,
            n == (if r.dimension_count < 4 { r.dimension_count as int } else { 4 }),
            forall|j: int| 0 <= j < k ==> r.dimensions[j] > 0,
        decreases n - k,
    {
        if r.dimensions[k] <= 0 {
            return false;
        }
        k = k + 1;
    }
    true
}

impl Storage {
    /// Whether record `ordinal`'s name equals `name`.
    fn name_matches(&self, ordinal: usize, name: &[u8]) -> (matches: bool)
        requires
            self.wf(),
            ordinal < self@.tensor_count,
            name_range_valid(self@, ordinal as int),
        ensures
            matches == (record_name(self@, ordinal as int) == name@),
    {
        let r = self.records[ordinal];
        let start = r.name_offset as usize;
        let length = r.name_length as usize;
        if length != name.len() {
            return false;
        }
        let mut k: usize = 0;
        while k < length
            invariant
                k <= length,
                length == name@.len(),
                start + length <= self.names@.len(),
                self.names@.len() <= MAX_NAME_BYTES,
                r == self@.records[ordinal as int],
                start == r.name_offset,
                length == r.name_length,
                forall|j: int| 0 <= j < k ==> self.names@[start + j] == name@[j],
            decreases length - k,
        {
            if self.names[start + k] != name[k] {
                assert(record_name(self@, ordinal as int)[k as int] != name@[k as int]);
                return false;
            }
            k = k + 1;
        }
        assert(record_name(self@, ordinal as int) =~= name@);
        true
    }

    /// Probes the name index from `home` for `name`.
    #[verifier::spinoff_prover]
    fn probe_name(&self, name: &[u8], home: usize) -> (result: Probe)
        requires
            self.wf(),
            self@.index.len() > 0,
            home < self@.index.len(),
            entries_valid(self@),
        ensures
            match result {
                Probe::Vacant { slot, step } => step < self@.index.len() && slot == probe_at(
                    home as int,
                    step as int,
                    self@.index.len() as int,
                ) && !filled(self@, slot as int) && probed_mismatch(self@, name@, home as int, step as int),
                Probe::Occupied { slot } => slot < self@.index.len() && filled(self@, slot as int) && slot_name(
                    self@,
                    slot as int,
                ) == name@,
                Probe::Exhausted => probed_mismatch(self@, name@, home as int, self@.index.len() as int),
            },
    {
        let m = self.index.len();
        let mut slot = home;
        let mut k: usize = 0;
        while k < m
            invariant
                m == self@.index.len(),
                home < m,
                k <= m,
                slot == probe_at(home as int, k as int, m as int),
                probed_mismatch(self@, name@, home as int, k as int),
                self.wf(),
                entries_valid(self@),
            decreases m - k,
        {
            let existing = self.index[slot];
            if existing == EMPTY_INDEX {
                return Probe::Vacant { slot, step: k };
            }
            assert(filled(self@, slot as int));
            if self.name_matches(existing as usize, name) {
                return Probe::Occupied { slot };
            }
            assert(probed_mismatch(self@, name@, home as int, k + 1)) by {
                let v = self@;
                assert forall|d: int| 0 <= d < k + 1 implies #[trigger] filled(v, probe_at(home as int, d, m as int))
                    && slot_name(v, probe_at(home as int, d, m as int)) != name@ by {
                    if d < k {
                        assert(probed_mismatch(v, name@, home as int, k as int));
                        assert(filled(v, probe_at(home as int, d, m as int)));
                    } else {
                        assert(probe_at(home as int, d, m as int) == slot);
                    }
                }
            }
            slot = if slot + 1 == m {
                0
            } else {
                slot + 1
            };
            k = k + 1;
        }
        Probe::Exhausted
    }

    /// Whether the stored model cannot be sealed.
    fn is_model_invalid(&self) -> (invalid: bool)
        requires
            self.wf(),
        ensures
            invalid == model_invalid(self@),
    {
        if self.tensor_count == 0 {
            return true;
        }
        let mut i: usize = 0;
        while i < self.tensor_count
            invariant
                i <= self@.tensor_count,
                self.wf(),
                forall|j: int| 0 <= j < i ==> record_valid(self@, j),
            decreases self@.tensor_count - i,
        {
            let r = self.records[i];
            let start = r.name_offset as usize;
            let length = r.name_length as usize;
            if start > self.name_bytes_used || length > self.name_bytes_used - start {
                assert(!record_valid(self@, i as int));
                return true;
            }
            if SerializedType::from_wire_code(r.wire_type).is_none() {
                assert(!record_valid(self@, i as int));
                return true;
            }
            i = i + 1;
        }
        false
    }

    /// Rebuilds the name index: each name's first record, probed linearly from its hash.
    fn build_index(&mut self)
        requires
            old(self).wf(),
            sealable(old(self)@),
        ensures
            final(self).wf(),
            index_wf(final(self)@, final(self)@.tensor_count as int),
            sealable(final(self)@),
            final(self)@ == (StorageView { index: final(self)@.index, ..old(self)@ }),
            final(self)@.index.len() == old(self)@.index.len(),
    {
        let ghost v0 = self@;
        let m = self.index.len();
        let mut s: usize = 0;
        while s < m
            invariant
                s <= m,
                m == self@.index.len(),
                self@ == (StorageView { index: self@.index, ..v0 }),
                forall|j: int| 0 <= j < s ==> self@.index[j] == EMPTY_INDEX,
            decreases m - s,
        {
            self.index.set(s, EMPTY_INDEX);
            s = s + 1;
        }
        proof {
            lemma_count_filled_bounds(self@.index);
            assert forall|t: int| 0 <= t < m implies !filled(self@, t) by {}
        }
        let n = self.tensor_count;
        let mut i: usize = 0;
        while i < n
            invariant
                i <= n,
                n == v0.tensor_count,
                n <= m,
                m > 0,
                m == self@.index.len(),
                self@ == (StorageView { index: self@.index, ..v0 }),
                self.wf(),
                sealable(v0),
                index_wf(self@, i as int),
            decreases n - i,
        {
            let ghost v = self@;
            let r = self.records[i];
            let start = r.name_offset as usize;
            let length = r.name_length as usize;
            proof {
                lemma_record_valid(v0, i as int);
                assert forall|t: int| 0 <= t < m && #[trigger] filled(v, t) implies v.index[t] < v.tensor_count && name_range_valid(v, v.index[t] as int) by {
                    lemma_record_valid(v0, v.index[t] as int);
                }
            }
            let home: usize;
            let probe: Probe;
            {
                let name = vstd::slice::slice_subrange(self.names.as_slice(), start, start + length);
                assert(name@ == record_name(v, i as int));
                let hash = hash_name(name);
                home = (hash % (m as u64)) as usize;
                proof {
                    vstd::arithmetic::div_mod::lemma_mod_bound(hash as int, m as int);
                }
                probe = self.probe_name(name, home);
            }
            let ghost q = record_name(v, i as int);
            assert(home == home_of(q, m as int));
            match probe {
                Probe::Vacant { slot, step } => {
                    proof {
                        lemma_probe_absent(v, i as int, q, step as int);
                        lemma_first_of_name(v, i as int);
                        assert(is_first(v, i as int));
                        lemma_count_filled_update(v.index, slot as int, i as u32);
                    }
                    self.index.set(slot, i as u32);
                    proof {
                        let w = self@;
                        assert(w.index == v.index.update(slot as int, i as u32));
                        lemma_same_records(v, w);
                        assert forall|t: int| 0 <= t < m && #[trigger] filled(w, t) implies w.index[t] < i + 1 && is_first(w, w.index[t] as int) by {
                            if t != slot {
                                assert(filled(v, t));
                            }
                        }
                        assert forall|j: int| 0 <= j < i + 1 && #[trigger] is_first(w, j) implies exists|t: int| 0 <= t < m && w.index[t] == j by {
                            if j == i {
                                assert(w.index[slot as int] == j);
                            } else {
                                assert(is_first(v, j));
                                let t = choose|t: int| 0 <= t < m && v.index[t] == j;
                                assert(t != slot);
                                assert(w.index[t] == j);
                            }
                        }
                        assert forall|t: int| 0 <= t < m && #[trigger] filled(w, t) implies path_filled(w, t) by {
                            let h = home_of(slot_name(w, t), m as int);
                            assert(0 <= h < m) by {
                                vstd::arithmetic::div_mod::lemma_mod_bound(name_hash(slot_name(w, t)) as int, m as int);
                            }
                            if t == slot {
                                assert(slot_name(w, t) == q);
                                lemma_probe_distance(home as int, slot as int, m as int);
                                assert(probe_distance(home as int, slot as int, m as int) == step);
                                assert forall|d: int| 0 <= d < probe_distance(h, t, m as int) implies #[trigger] filled(w, probe_at(h, d, m as int)) by {
                                    assert(filled(v, probe_at(h, d, m as int)));
                                }
                            } else {
                                assert(filled(v, t));
                                assert(path_filled(v, t));
                                assert(slot_name(w, t) == slot_name(v, t));
                                assert forall|d: int| 0 <= d < probe_distance(h, t, m as int) implies #[trigger] filled(w, probe_at(h, d, m as int)) by {
                                    assert(filled(v, probe_at(h, d, m as int)));
                                }
                            }
                        }
                    }
                },
                Probe::Occupied { slot } => {
                    proof {
                        assert(filled(v, slot as int));
                        let o = v.index[slot as int] as int;
                        assert(o < i && record_name(v, o) == q);
                        assert(!is_first(v, i as int));
                        assert forall|j: int| 0 <= j < i + 1 && #[trigger] is_first(v, j) implies exists|t: int| 0 <= t < m && v.index[t] == j by {
                            assert(j != i);
                        }
                    }
                },
                Probe::Exhausted => {
                    proof {
                        assert forall|t: int| 0 <= t < m implies v.index[t] != EMPTY_INDEX by {
                            lemma_probe_distance(home as int, t, m as int);
                            assert(filled(v, probe_at(home as int, probe_distance(home as int, t, m as int), m as int)));
                        }
                        lemma_count_filled_bounds(v.index);
                        lemma_probe_absent(v, i as int, q, m as int);
                        lemma_first_of_name(v, i as int);
                        assert(false);
                    }
                },
            }
            i = i + 1;
        }
        proof {
            lemma_sealable_index_free(v0, self@);
        }
    }

    /// The first record named `name`, looked up through the sealed name index.
    fn find_ordinal(&self, name: &[u8]) -> (ordinal: Option<usize>)
        requires
            self.wf(),
            sealable(self@),
            self@.index.len() > 0,
            index_wf(self@, self@.tensor_count as int),
        ensures
            match ordinal {
                Some(o) => first_named(self@, o as int, name@),
                None => none_named(self@, name@),
            },
    {
        let ghost v = self@;
        let m = self.index.len();
        proof {
            assert forall|t: int| 0 <= t < m && #[trigger] filled(v, t) implies v.index[t] < v.tensor_count && name_range_valid(v, v.index[t] as int) by {
                lemma_record_valid(v, v.index[t] as int);
            }
        }
        let hash = hash_name(name);
        let home = (hash % (m as u64)) as usize;
        proof {
            vstd::arithmetic::div_mod::lemma_mod_bound(hash as int, m as int);
        }
        match self.probe_name(name, home) {
            Probe::Vacant { slot, step } => {
                proof {
                    lemma_probe_absent(v, v.tensor_count as int, name@, step as int);
                    lemma_none_named(v, name@);
                }
                None
            },
            Probe::Occupied { slot } => {
                let o = self.index[slot] as usize;
                assert(is_first(v, o as int));
                Some(o)
            },
            Probe::Exhausted => {
                proof {
                    lemma_probe_absent(v, v.tensor_count as int, name@, m as int);
                    lemma_none_named(v, name@);
                }
                None
            },
        }
    }
}

impl Catalog {
    /// Storage is held exactly outside the empty phase, and a sealed catalog's
    /// name index covers its valid records.
    pub closed spec fn wf(&self) -> bool {
        &&& catalog_view_valid(self@)
        &&& (self.storage matches Some(s) ==> s.wf())
        &&& (self.phase == CatalogPhase::Sealed ==> {
            &&& sealable(held(self@))
            &&& index_wf(held(self@), held(self@).tensor_count as int)
        })
    }

    /// A sealed catalog holds between one and the maximum number of records, and
    /// every record it holds is valid.
    pub proof fn lemma_sealed_counts(&self)
        requires
            self.wf(),
            self@.phase == CatalogPhase::Sealed,
        ensures
            catalog_view_valid(self@),
            0 < held(self@).tensor_count <= MAX_TENSORS,
            !model_invalid(held(self@)),
            storage_view_valid(held(self@)),
    {
        self.lemma_view_valid();
        let s = self.storage.unwrap();
        assert(s.wf());
    }

    /// A well-formed catalog has a valid view, and the storage it holds is valid.
    pub proof fn lemma_view_valid(&self)
        requires
            self.wf(),
        ensures
            catalog_view_valid(self@),
            self@.storage is Some ==> storage_view_valid(held(self@)),
    {
        if self.storage is Some {
            self.storage.unwrap().lemma_view_valid();
        }
    }

    /// An empty catalog owned by `owner`, at generation zero. Catalogs tell
    /// their identities apart by owner, so each catalog that may see another's
    /// identities needs an owner of its own.
    pub fn with_owner(owner: u64) -> (catalog: Self)
        ensures
            catalog.wf(),
            catalog@ == (CatalogView { owner, generation: 0, phase: CatalogPhase::Empty, storage: None }),
    {
        Catalog { owner, generation: 0, phase: CatalogPhase::Empty, storage: None }
    }

    pub fn is_empty(&self) -> (empty: bool)
        ensures
            empty == (self@.phase == CatalogPhase::Empty),
    {
        match self.phase {
            CatalogPhase::Empty => true,
            _ => false,
        }
    }

    pub fn is_bound(&self) -> (bound: bool)
        ensures
            bound == (self@.phase == CatalogPhase::Bound),
    {
        match self.phase {
            CatalogPhase::Bound => true,
            _ => false,
        }
    }

    pub fn is_sealed(&self) -> (sealed: bool)
        ensures
            sealed == (self@.phase == CatalogPhase::Sealed),
    {
        match self.phase {
            CatalogPhase::Sealed => true,
            _ => false,
        }
    }

    /// Moves caller storage into an empty catalog; a refused bind hands it back.
    pub fn bind_storage(&mut self, event: BindStorage) -> (result: Result<(), BindStorageError>)
        requires
            old(self).wf(),
            event.storage.wf(),
        ensures
            final(self).wf(),
            final(self)@ == bind_view(old(self)@, event.storage@).1,
            match result {
                Ok(()) => bind_view(old(self)@, event.storage@).0 is Ok,
                Err(e) => bind_view(old(self)@, event.storage@).0 == Err::<(), Error>(e.spec_error())
                    && e.spec_storage() == event.storage,
            },
    {
        let storage = event.storage;
        match self.phase {
            CatalogPhase::Empty => {},
            _ => {
                return Err(BindStorageError { error: Error::Busy, storage });
            },
        }
        if storage.tensor_count > storage.records.len() || storage.name_bytes_used > storage.names.len() {
            return Err(BindStorageError { error: Error::InvalidRequest, storage });
        }
        self.storage = Some(storage);
        self.phase = CatalogPhase::Bound;
        Ok(())
    }

    /// Seals the bound storage: checks every record, builds the name index and hands
    /// out the identity of the new generation.
    pub fn seal_model(&mut self, event: SealModel) -> (result: Result<ModelIdentity, Error>)
        requires
            old(self).wf(),
        ensures
            final(self).wf(),
            seal_post(old(self)@, final(self)@),
            match result {
                Ok(identity) => seal_result(old(self)@) == Ok::<(u64, u64), Error>(identity@),
                Err(e) => seal_result(old(self)@) == Err::<(u64, u64), Error>(e),
            },
    {
        match self.phase {
            CatalogPhase::Bound => {},
            CatalogPhase::Empty => {
                return Err(Error::StorageUnavailable);
            },
            CatalogPhase::Sealed => {
                return Err(Error::Busy);
            },
        }
        if self.generation == u64::MAX {
            return Err(Error::Capacity);
        }
        let taken = self.storage.take();
        let mut storage = match taken {
            Some(s) => s,
            None => {
                return Err(Error::Internal);
            },
        };
        if storage.tensor_count > storage.index.len() {
            self.storage = Some(storage);
            return Err(Error::Capacity);
        }
        if storage.is_model_invalid() {
            self.storage = Some(storage);
            return Err(Error::ModelInvalid);
        }
        storage.build_index();
        self.storage = Some(storage);
        self.generation = self.generation + 1;
        self.phase = CatalogPhase::Sealed;
        Ok(ModelIdentity { owner: self.owner, generation: self.generation })
    }

    /// The storage of a catalog that holds one.
    fn held_storage(&self) -> (storage: &Storage)
        requires
            self.wf(),
            self@.phase != CatalogPhase::Empty,
        ensures
            storage.wf(),
            storage@ == held(self@),
    {
        self.storage.as_ref().unwrap()
    }

    /// The descriptor of record `ordinal` of the sealed model.
    fn descriptor_at(&self, ordinal: usize) -> (descriptor: TensorDescriptor)
        requires
            self.wf(),
            self@.phase == CatalogPhase::Sealed,
            ordinal < self@.storage.unwrap().tensor_count,
        ensures
            describes(descriptor, self@.owner, self@.generation, ordinal as int, held(self@).records[ordinal as int]),
    {
        let storage = self.held_storage();
        let r = storage.records[ordinal];
        proof {
            lemma_record_valid(storage@, ordinal as int);
        }
        let tensor_type = SerializedType::from_wire_code(r.wire_type).unwrap();
        let bound = record_is_bound(&r);
        let ordinal32 = ordinal as u32;
        TensorDescriptor {
            tensor_id: TensorId { owner: self.owner, generation: self.generation, ordinal: ordinal32 },
            name_id: NameId { owner: self.owner, generation: self.generation, ordinal: ordinal32 },
            tensor_type,
            dimension_count: r.dimension_count,
            dimensions: r.dimensions,
            data_size: r.data_size,
            binding_present: r.binding_present,
            binding_status: if bound {
                TensorBindingStatus::Bound
            } else {
                TensorBindingStatus::Unbound
            },
        }
    }

    /// The scalar facts of the sealed model named by `event.identity`.
    pub fn describe_model(&self, event: DescribeModel) -> (result: Result<ModelDescriptor, Error>)
        requires
            self.wf(),
        ensures
            match model_query_error(self@, event.identity@) {
                Some(e) => result == Err::<ModelDescriptor, Error>(e),
                None => result == Ok::<ModelDescriptor, Error>(
                    ModelDescriptor { tensor_count: held(self@).tensor_count as u32 },
                ),
            },
    {
        match self.phase {
            CatalogPhase::Sealed => {},
            _ => {
                return Err(Error::StorageUnavailable);
            },
        }
        if event.identity.owner != self.owner {
            return Err(Error::WrongModelIdentity);
        }
        if event.identity.generation != self.generation {
            return Err(Error::StaleModelIdentity);
        }
        let storage = self.held_storage();
        Ok(ModelDescriptor { tensor_count: storage.tensor_count as u32 })
    }

    /// Looks up the first tensor carrying exactly the name bytes of `event.name`.
    pub fn find_tensor(&self, event: FindTensor<'_>) -> (result: Result<Option<TensorDescriptor>, Error>)
        requires
            self.wf(),
        ensures
            match model_query_error(self@, event.identity@) {
                Some(e) => result == Err::<Option<TensorDescriptor>, Error>(e),
                None => match result {
                    Ok(Some(d)) => first_named(held(self@), d.tensor_id@.2 as int, event.name@)
                        && describes(
                        d,
                        self@.owner,
                        self@.generation,
                        d.tensor_id@.2 as int,
                        held(self@).records[d.tensor_id@.2 as int],
                    ),
                    Ok(None) => none_named(held(self@), event.name@),
                    Err(_) => false,
                },
            },
    {
        match self.phase {
            CatalogPhase::Sealed => {},
            _ => {
                return Err(Error::StorageUnavailable);
            },
        }
        if event.identity.owner != self.owner {
            return Err(Error::WrongModelIdentity);
        }
        if event.identity.generation != self.generation {
            return Err(Error::StaleModelIdentity);
        }
        let storage = self.held_storage();
        match storage.find_ordinal(event.name) {
            Some(ordinal) => {
                let d = self.descriptor_at(ordinal);
                Ok(Some(d))
            },
            None => Ok(None),
        }
    }

    /// The facts of the tensor named by `event.tensor_id`.
    pub fn describe_tensor(&self, event: DescribeTensor) -> (result: Result<TensorDescriptor, Error>)
        requires
            self.wf(),
        ensures
            match item_query_error(
                self@,
                event.tensor_id@,
                Error::WrongTensorIdentity,
                Error::StaleTensorIdentity,
            ) {
                Some(e) => result == Err::<TensorDescriptor, Error>(e),
                None => match result {
                    Ok(d) => describes(
                        d,
                        self@.owner,
                        self@.generation,
                        event.tensor_id@.2 as int,
                        held(self@).records[event.tensor_id@.2 as int],
                    ),
                    Err(_) => false,
                },
            },
    {
        match self.phase {
            CatalogPhase::Sealed => {},
            _ => {
                return Err(Error::StorageUnavailable);
            },
        }
        let id = event.tensor_id;
        if id.owner != self.owner {
            return Err(Error::WrongTensorIdentity);
        }
        let storage = self.held_storage();
        if id.generation != self.generation || id.ordinal as usize >= storage.tensor_count {
            return Err(Error::StaleTensorIdentity);
        }
        Ok(self.descriptor_at(id.ordinal as usize))
    }

    /// The canonical name bytes of the tensor named by `name_id`.
    pub fn tensor_name(&self, name_id: NameId) -> (result: Result<&[u8], Error>)
        requires
            self.wf(),
        ensures
            match item_query_error(self@, name_id@, Error::WrongNameIdentity, Error::StaleNameIdentity) {
                Some(e) => result == Err::<&[u8], Error>(e),
                None => match result {
                    Ok(name) => name@ == record_name(held(self@), name_id@.2 as int),
                    Err(_) => false,
                },
            },
    {
        match self.phase {
            CatalogPhase::Sealed => {},
            _ => {
                return Err(Error::StorageUnavailable);
            },
        }
        if name_id.owner != self.owner {
            return Err(Error::WrongNameIdentity);
        }
        let storage = self.held_storage();
        if name_id.generation != self.generation || name_id.ordinal as usize >= storage.tensor_count {
            return Err(Error::StaleNameIdentity);
        }
        let ordinal = name_id.ordinal as usize;
        proof {
            lemma_record_valid(storage@, ordinal as int);
        }
        let r = storage.records[ordinal];
        let start = r.name_offset as usize;
        let end = start + r.name_length as usize;
        Ok(vstd::slice::slice_subrange(storage.names.as_slice(), start, end))
    }

    /// Returns a sealed catalog to the bound state with an empty name index.
    pub fn reset(&mut self, event: Reset) -> (result: Result<(), Error>)
        requires
            old(self).wf(),
        ensures
            final(self).wf(),
            (result, final(self)@) == reset_view(old(self)@),
    {
        match self.phase {
            CatalogPhase::Sealed => {},
            CatalogPhase::Empty => {
                return Err(Error::StorageUnavailable);
            },
            CatalogPhase::Bound => {
                return Err(Error::InvalidRequest);
            },
        }
        let taken = self.storage.take();
        let mut storage = match taken {
            Some(s) => s,
            None => {
                return Err(Error::Internal);
            },
        };
        let ghost v = storage@;
        let m = storage.index.len();
        let mut k: usize = 0;
        while k < m
            invariant
                k <= m,
                m == storage@.index.len(),
                storage@ == (StorageView { index: storage@.index, ..v }),
                storage.wf(),
                forall|j: int| 0 <= j < k ==> storage@.index[j] == EMPTY_INDEX,
            decreases m - k,
        {
            storage.index.set(k, EMPTY_INDEX);
            k = k + 1;
        }
        assert(storage@.index =~= Seq::new(m as nat, |i: int| EMPTY_INDEX));
        self.storage = Some(storage);
        self.phase = CatalogPhase::Bound;
        Ok(())
    }

    /// Hands the storage of a bound catalog back and empties the catalog.
    pub fn release_storage(&mut self, event: ReleaseStorage) -> (result: Result<Storage, Error>)
        requires
            old(self).wf(),
        ensures
            final(self).wf(),
            final(self)@ == release_view(old(self)@).1,
            match result {
                Ok(s) => s.wf() && release_view(old(self)@).0 == Ok::<StorageView, Error>(s@),
                Err(e) => release_view(old(self)@).0 == Err::<StorageView, Error>(e),
            },
    {
        match self.phase {
            CatalogPhase::Bound => {},
            CatalogPhase::Empty => {
                return Err(Error::StorageUnavailable);
            },
            CatalogPhase::Sealed => {
                return Err(Error::Busy);
            },
        }
        let taken = self.storage.take();
        match taken {
            Some(s) => {
                self.phase = CatalogPhase::Empty;
                Ok(s)
            },
            None => Err(Error::Internal),
        }
    }
}

/// Pushing and clearing never change a storage's capacities and keep its
/// counters inside them; after a clear, a record fits exactly when the storage
/// has a tensor slot and the name fits the name region.
pub proof fn lemma_storage_steps_keep_capacities(v: StorageView, input: TensorInput, name_length: nat)
    requires
        storage_view_valid(v),
    ensures
        push_fits(v, input.name@.len() as int) ==> {
            let after = pushed(v, input);
            &&& storage_view_valid(after)
            &&& after.records.len() == v.records.len()
            &&& after.names.len() == v.names.len()
            &&& after.index.len() == v.index.len()
        },
        storage_view_valid(cleared(v)),
        cleared(v).records.len() == v.records.len(),
        cleared(v).names.len() == v.names.len(),
        cleared(v).index.len() == v.index.len(),
        push_fits(cleared(v), name_length as int) <==> (0 < v.records.len() && name_length <= v.names.len()),
{
}

/// A bound catalog whose storage is valid and whose records are all valid
/// seals, unless its generation counter is exhausted.
pub proof fn lemma_valid_model_seals(c: CatalogView)
    requires
        c.phase == CatalogPhase::Bound,
        c.storage is Some,
        storage_view_valid(held(c)),
        !model_invalid(held(c)),
        c.generation < u64::MAX,
    ensures
        seal_result(c) == Ok::<(u64, u64), Error>((c.owner, (c.generation + 1) as u64)),
{
}

/// A reset sealed catalog seals again, with the next generation, unless its
/// generation counter is exhausted.
pub proof fn lemma_reset_then_seal(c: CatalogView)
    requires
        c.phase == CatalogPhase::Sealed,
        c.storage is Some,
        storage_view_valid(held(c)),
        !model_invalid(held(c)),
        c.generation < u64::MAX,
    ensures
        reset_view(c).0 is Ok,
        seal_result(reset_view(c).1) == Ok::<(u64, u64), Error>((c.owner, (c.generation + 1) as u64)),
{
    let after = reset_view(c).1;
    assert(held(after).records == held(c).records);
    assert(forall|i: int| record_valid(held(after), i) == record_valid(held(c), i));
}

/// Storage released by a catalog binds into any empty catalog.
pub proof fn lemma_released_storage_binds_again(c: CatalogView, empty: CatalogView)
    requires
        c.phase == CatalogPhase::Bound,
        c.storage is Some,
        storage_view_valid(held(c)),
        empty.phase == CatalogPhase::Empty,
    ensures
        release_view(c).0 is Ok,
        bind_view(empty, release_view(c).0->Ok_0).0 is Ok,
        bind_view(empty, release_view(c).0->Ok_0).1.storage == Some(held(c)),
{
}

/// The total name length of `inputs`.
pub open spec fn total_name_length(inputs: Seq<TensorInput>) -> nat
    decreases inputs.len(),
{
    if inputs.len() == 0 {
        0
    } else {
        total_name_length(inputs.drop_last()) + inputs.last().name@.len()
    }
}

/// The storage content after pushing `inputs` in order.
pub open spec fn pushed_all(v: StorageView, inputs: Seq<TensorInput>) -> StorageView
    decreases inputs.len(),
{
    if inputs.len() == 0 {
        v
    } else {
        pushed(pushed_all(v, inputs.drop_last()), inputs.last())
    }
}

proof fn lemma_total_prefix_bound(inputs: Seq<TensorInput>, j: int)
    requires
        0 <= j <= inputs.len(),
    ensures
        total_name_length(inputs.take(j)) <= total_name_length(inputs),
    decreases inputs.len() - j,
{
    if j < inputs.len() {
        lemma_total_prefix_bound(inputs, j + 1);
        assert(inputs.take(j + 1).drop_last() =~= inputs.take(j));
    } else {
        assert(inputs.take(j) =~= inputs);
    }
}

proof fn lemma_pushed_prefix(inputs: Seq<TensorInput>, j: int)
    requires
        0 <= j <= inputs.len(),
    ensures
        ({
            let fresh = fresh_storage(inputs.len(), total_name_length(inputs), inputs.len());
            let v = pushed_all(fresh, inputs.take(j));
            &&& v.tensor_count == j
            &&& v.name_bytes_used == total_name_length(inputs.take(j))
            &&& v.records.len() == inputs.len()
            &&& v.names.len() == total_name_length(inputs)
            &&& v.index.len() == inputs.len()
            &&& forall|i: int| 0 <= i < j ==> push_fits(
                pushed_all(fresh, inputs.take(i)),
                inputs[i].name@.len() as int,
            )
        }),
    decreases j,
{
    let fresh = fresh_storage(inputs.len(), total_name_length(inputs), inputs.len());
    if j > 0 {
        lemma_pushed_prefix(inputs, j - 1);
        lemma_total_prefix_bound(inputs, j);
        let prefix = inputs.take(j);
        assert(prefix.drop_last() =~= inputs.take(j - 1));
        assert(prefix.last() == inputs[j - 1]);
        let before = pushed_all(fresh, inputs.take(j - 1));
        assert(push_fits(before, inputs[j - 1].name@.len() as int));
    } else {
        assert(inputs.take(0) =~= Seq::<TensorInput>::empty());
    }
}

/// Storage sized by a list of inputs (one tensor slot and one index slot per
/// input, and their total name length) takes every input in order: each push
/// fits, and afterwards the storage is full.
pub proof fn lemma_inputs_fit_their_total(inputs: Seq<TensorInput>)
    ensures
        ({
            let fresh = fresh_storage(inputs.len(), total_name_length(inputs), inputs.len());
            &&& forall|i: int| 0 <= i < inputs.len() ==> push_fits(
                #[trigger] pushed_all(fresh, inputs.take(i)),
                inputs[i].name@.len() as int,
            )
            &&& pushed_all(fresh, inputs).tensor_count == inputs.len()
            &&& pushed_all(fresh, inputs).name_bytes_used == total_name_length(inputs)
        }),
{
    lemma_pushed_prefix(inputs, inputs.len() as int);
    assert(inputs.take(inputs.len() as int) =~= inputs);
}

/// A sealed catalog answers any identity that carries another owner as a wrong
/// identity, whatever its generation or ordinal: identities from a catalog with
/// a different owner are never taken for its own.
pub proof fn lemma_foreign_identities_are_wrong(c: CatalogView, model: (u64, u64), item: (u64, u64, u32))
    requires
        c.phase == CatalogPhase::Sealed,
        model.0 != c.owner,
        item.0 != c.owner,
    ensures
        model_query_error(c, model) == Some(Error::WrongModelIdentity),
        item_query_error(c, item, Error::WrongTensorIdentity, Error::StaleTensorIdentity) == Some(
            Error::WrongTensorIdentity,
        ),
        item_query_error(c, item, Error::WrongNameIdentity, Error::StaleNameIdentity) == Some(
            Error::WrongNameIdentity,
        ),
{
}

/// Binding storage into an empty catalog and releasing it again hands back exactly
/// that storage and leaves the catalog as it was.
pub proof fn lemma_bind_release_round_trip(c: CatalogView, s: StorageView)
    requires
        catalog_view_valid(c),
        c.phase == CatalogPhase::Empty,
        storage_counts_fit(s),
    ensures
        bind_view(c, s).0 is Ok,
        release_view(bind_view(c, s).1) == (Ok::<StorageView, Error>(s), c),
{
}

/// A successful seal hands out an identity that the sealed catalog accepts.
pub proof fn lemma_sealed_identity_is_current(c: CatalogView, after: CatalogView)
    requires
        seal_result(c) is Ok,
        seal_post(c, after),
    ensures
        model_query_error(after, seal_result(c).unwrap()) is None,
{
}

/// After a reset and a new seal, every identity of the previous generation is stale,
/// and the new generation's identity differs from the old one.
pub proof fn lemma_reseal_stales_previous_identities(c: CatalogView, after: CatalogView, ordinal: u32)
    requires
        catalog_view_valid(c),
        c.phase == CatalogPhase::Sealed,
        seal_result(reset_view(c).1) is Ok,
        seal_post(reset_view(c).1, after),
    ensures
        reset_view(c).0 is Ok,
        seal_result(reset_view(c).1) == Ok::<(u64, u64), Error>((c.owner, (c.generation + 1) as u64)),
        model_query_error(after, (c.owner, c.generation)) == Some(Error::StaleModelIdentity),
        item_query_error(
            after,
            (c.owner, c.generation, ordinal),
            Error::WrongTensorIdentity,
            Error::StaleTensorIdentity,
        ) == Some(Error::StaleTensorIdentity),
        item_query_error(after, (c.owner, c.generation, ordinal), Error::WrongNameIdentity, Error::StaleNameIdentity)
            == Some(Error::StaleNameIdentity),
{
}

/// The descriptor found by name is the descriptor described by its own tensor identity.
pub proof fn lemma_find_then_describe_agree(c: CatalogView, name: Seq<u8>, found: TensorDescriptor, described: TensorDescriptor)
    requires
        catalog_view_valid(c),
        model_query_error(c, (c.owner, c.generation)) is None,
        first_named(held(c), found.tensor_id@.2 as int, name),
        describes(found, c.owner, c.generation, found.tensor_id@.2 as int, held(c).records[found.tensor_id@.2 as int]),
        describes(
            described,
            c.owner,
            c.generation,
            found.tensor_id@.2 as int,
            held(c).records[found.tensor_id@.2 as int],
        ),
    ensures
        item_query_error(c, found.tensor_id@, Error::WrongTensorIdentity, Error::StaleTensorIdentity) is None,
        described == found,
{
    lemma_tensor_id_view_injective(described.tensor_id, found.tensor_id);
    lemma_name_id_view_injective(described.name_id, found.name_id);
}

/// The name identity of a found tensor reads back exactly the name that was looked up.
pub proof fn lemma_found_name_reads_back(c: CatalogView, name: Seq<u8>, found: TensorDescriptor)
    requires
        catalog_view_valid(c),
        model_query_error(c, (c.owner, c.generation)) is None,
        first_named(held(c), found.tensor_id@.2 as int, name),
        describes(found, c.owner, c.generation, found.tensor_id@.2 as int, held(c).records[found.tensor_id@.2 as int]),
    ensures
        item_query_error(c, found.name_id@, Error::WrongNameIdentity, Error::StaleNameIdentity) is None,
        record_name(held(c), found.name_id@.2 as int) == name,
{
}

/// Pushing a record keeps every earlier record's name and stores the new record's
/// name, inside the used name bytes.
pub proof fn lemma_push_keeps_names(v: StorageView, input: TensorInput)
    requires
        storage_counts_fit(v),
        push_fits(v, input.name@.len() as int),
        v.names.len() <= MAX_NAME_BYTES,
    ensures
        forall|i: int| 0 <= i < v.tensor_count && name_range_valid(v, i) ==> name_range_valid(pushed(v, input), i)
            && record_name(pushed(v, input), i) == record_name(v, i),
        name_range_valid(pushed(v, input), v.tensor_count as int),
        record_name(pushed(v, input), v.tensor_count as int) == input.name@,
{
    let w = pushed(v, input);
    let used = v.name_bytes_used as int;
    let end = used + input.name@.len();
    assert(w.names.len() == v.names.len());
    assert forall|i: int| 0 <= i < v.tensor_count && name_range_valid(v, i) implies name_range_valid(w, i)
        && record_name(w, i) == record_name(v, i) by {
        assert(w.records[i] == v.records[i]);
        assert(record_name(w, i) =~= record_name(v, i));
    }
    assert(record_name(w, v.tensor_count as int) =~= input.name@);
}

proof fn lemma_first_record_kept(v: StorageView, input: TensorInput, rest: Seq<TensorInput>, j: int)
    requires
        storage_view_valid(v),
        v.tensor_count == 0,
        push_fits(v, input.name@.len() as int),
        0 <= j <= rest.len(),
        forall|i: int| 0 <= i < rest.len() ==> push_fits(
            #[trigger] pushed_all(pushed(v, input), rest.take(i)),
            rest[i].name@.len() as int,
        ),
    ensures
        ({
            let w = pushed_all(pushed(v, input), rest.take(j));
            &&& storage_view_valid(w)
            &&& w.tensor_count == j + 1
            &&& w.records[0] == pushed_record(v, input)
            &&& name_range_valid(w, 0)
            &&& record_name(w, 0) == input.name@
        }),
    decreases j,
{
    lemma_push_keeps_names(v, input);
    lemma_storage_steps_keep_capacities(v, input, 0);
    if j == 0 {
        assert(rest.take(0) =~= Seq::<TensorInput>::empty());
    } else {
        lemma_first_record_kept(v, input, rest, j - 1);
        let before = pushed_all(pushed(v, input), rest.take(j - 1));
        assert(rest.take(j).drop_last() =~= rest.take(j - 1));
        assert(rest.take(j).last() == rest[j - 1]);
        assert(push_fits(before, rest[j - 1].name@.len() as int));
        lemma_push_keeps_names(before, rest[j - 1]);
        lemma_storage_steps_keep_capacities(before, rest[j - 1], 0);
    }
}

/// The first record pushed into an empty storage stays first: whatever is
/// pushed after it, record zero keeps its facts and its name.
pub proof fn lemma_first_pushed_stays_first(v: StorageView, input: TensorInput, rest: Seq<TensorInput>)
    requires
        storage_view_valid(v),
        v.tensor_count == 0,
        push_fits(v, input.name@.len() as int),
        forall|i: int| 0 <= i < rest.len() ==> push_fits(
            #[trigger] pushed_all(pushed(v, input), rest.take(i)),
            rest[i].name@.len() as int,
        ),
    ensures
        ({
            let w = pushed_all(pushed(v, input), rest);
            &&& storage_view_valid(w)
            &&& w.tensor_count == rest.len() + 1
            &&& w.records[0] == pushed_record(v, input)
            &&& record_name(w, 0) == input.name@
        }),
{
    lemma_first_record_kept(v, input, rest, rest.len() as int);
    assert(rest.take(rest.len() as int) =~= rest);
}

/// In a sealed model whose first record is named `name`, a lookup of `name`
/// finds that first record: any answer a lookup may give is the description of
/// record zero, and "not found" is impossible.
pub proof fn lemma_first_record_is_found(c: CatalogView, name: Seq<u8>, result: Result<Option<TensorDescriptor>, Error>)
    requires
        model_query_error(c, (c.owner, c.generation)) is None,
        0 < held(c).tensor_count,
        record_name(held(c), 0) == name,
        result matches Ok(Some(d)) ==> first_named(held(c), d.tensor_id@.2 as int, name) && describes(
            d,
            c.owner,
            c.generation,
            d.tensor_id@.2 as int,
            held(c).records[d.tensor_id@.2 as int],
        ),
        result matches Ok(None) ==> none_named(held(c), name),
    ensures
        !(result matches Ok(None)),
        result matches Ok(Some(d)) ==> d.tensor_id@.2 == 0 && describes(d, c.owner, c.generation, 0, held(c).records[0]),
{
}

/// Clearing a storage whose unused regions were never written gives back the
/// freshly allocated storage of the same capacities.
pub proof fn lemma_clear_restores_fresh(v: StorageView)
    requires
        storage_counts_fit(v),
        forall|j: int| v.name_bytes_used <= j < v.names.len() ==> v.names[j] == 0u8,
        forall|j: int| v.tensor_count <= j < v.records.len() ==> v.records[j] == zero_record(),
    ensures
        cleared(v) == fresh_storage(v.records.len(), v.names.len(), v.index.len()),
{
    let c = cleared(v);
    let f = fresh_storage(v.records.len(), v.names.len(), v.index.len());
    assert(c.names =~= f.names);
    assert(c.records =~= f.records);
    assert(c.index =~= f.index);
}

/// `result` is what a sealed catalog answers to a lookup of `name` at its current identity.
pub open spec fn find_outcome(c: CatalogView, name: Seq<u8>, result: Option<TensorDescriptor>) -> bool {
    match result {
        Some(d) => first_named(held(c), d.tensor_id@.2 as int, name) && describes(
            d,
            c.owner,
            c.generation,
            d.tensor_id@.2 as int,
            held(c).records[d.tensor_id@.2 as int],
        ),
        None => none_named(held(c), name),
    }
}

/// The answer of a sealed catalog to a lookup of `name`.
pub open spec fn lookup(c: CatalogView, name: Seq<u8>) -> Option<TensorDescriptor> {
    if exists|d: TensorDescriptor| find_outcome(c, name, Some(d)) {
        Some(choose|d: TensorDescriptor| find_outcome(c, name, Some(d)))
    } else {
        None
    }
}

/// A lookup has exactly one answer.
pub proof fn lemma_find_outcome_unique(c: CatalogView, name: Seq<u8>, result: Option<TensorDescriptor>)
    requires
        find_outcome(c, name, result),
    ensures
        result == lookup(c, name),
{
    match result {
        Some(d) => {
            assert(find_outcome(c, name, Some(d)));
            let e = choose|e: TensorDescriptor| find_outcome(c, name, Some(e));
            let i = d.tensor_id@.2 as int;
            let j = e.tensor_id@.2 as int;
            if i < j {
                assert(record_name(held(c), i) == name);
            } else if j < i {
                assert(record_name(held(c), j) == name);
            }
            lemma_tensor_id_view_injective(d.tensor_id, e.tensor_id);
            lemma_name_id_view_injective(d.name_id, e.name_id);
        },
        None => {
            if exists|d: TensorDescriptor| find_outcome(c, name, Some(d)) {
                let e = choose|e: TensorDescriptor| find_outcome(c, name, Some(e));
                assert(record_name(held(c), e.tensor_id@.2 as int) == name);
            }
        },
    }
}

impl Record {
    /// The all-zero record.
    pub fn default_record() -> (record: Self)
        ensures
            record == zero_record(),
    {
        Record {
            name_offset: 0,
            name_length: 0,
            wire_type: 0,
            dimension_count: 0,
            dimensions: [0i64, 0, 0, 0],
            data_size: 0,
            binding_present: false,
        }
    }
}

} // verus!
