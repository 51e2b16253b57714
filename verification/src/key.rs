//! The key of a module: the SHA-256 digest of everything in it that the compiler reads.
//!
//! What is hashed is laid out so that it can be read in one way only. Every list is
//! written with its length before its items, every run of bytes with its length before
//! its bytes, and every number as eight bytes, lowest first. The exports of a module are
//! written in ascending order, since the order in which they were declared means nothing.
//! The module's start function is not written: compiled code does not depend on it.

use crate::ascending::{ascending, lemma_ascending_is_total, lemma_sort_ignores_arrangement, sorted};
use sha2::Digest;
use vstd::bytes::*;
use vstd::prelude::*;

verus! {

/// The body of one function: its bytes, and where they stood in the module's file.
#[derive(Debug, Clone, PartialEq, Eq)]
pub struct FunctionBodyData {
    pub data: Vec<u8>,
    pub module_offset: u64,
}

/// What a [`FunctionBodyData`] holds, as plain values.
pub struct FunctionBodyView {
    pub data: Seq<u8>,
    pub module_offset: u64,
}

impl View for FunctionBodyData {
    type V = FunctionBodyView;

    open spec fn view(&self) -> FunctionBodyView {
        FunctionBodyView { data: self.data@, module_offset: self.module_offset }
    }
}

impl DeepView for FunctionBodyData {
    type V = FunctionBodyView;

    open spec fn deep_view(&self) -> FunctionBodyView {
        self@
    }
}

/// A module as the cache sees it.
#[derive(Debug, Clone, PartialEq, Eq)]
pub struct Module {
    /// The parts that the compiler reads (signatures, function types, table and memory
    /// plans, globals), each as bytes and in a fixed order.
    pub sections: Vec<Vec<u8>>,
    /// The exported entities, each as a number, in the order of their declaration.
    pub exports: Vec<u64>,
    /// The start function, if there is one.
    pub start_func: Option<u32>,
}

/// What a [`Module`] holds, as plain values.
pub struct ModuleView {
    pub sections: Seq<Seq<u8>>,
    pub exports: Seq<u64>,
    pub start_func: Option<u32>,
}

impl View for Module {
    type V = ModuleView;

    open spec fn view(&self) -> ModuleView {
        ModuleView {
            sections: self.sections.deep_view(),
            exports: self.exports@,
            start_func: self.start_func,
        }
    }
}

/// A number as eight bytes, lowest first.
pub open spec fn word(n: u64) -> Seq<u8> {
    spec_u64_to_le_bytes(n)
}

/// A run of bytes behind its length.
pub open spec fn chunk(bytes: Seq<u8>) -> Seq<u8> {
    word(bytes.len() as u64) + bytes
}

/// The body of a function: its bytes as a chunk, then its offset.
pub open spec fn body(b: FunctionBodyView) -> Seq<u8> {
    chunk(b.data) + word(b.module_offset)
}

/// [`word`] as a value.
pub open spec fn by_word() -> spec_fn(u64) -> Seq<u8> {
    |n: u64| word(n)
}

/// [`chunk`] as a value.
pub open spec fn by_chunk() -> spec_fn(Seq<u8>) -> Seq<u8> {
    |bytes: Seq<u8>| chunk(bytes)
}

/// [`body`] as a value.
pub open spec fn by_body() -> spec_fn(FunctionBodyView) -> Seq<u8> {
    |b: FunctionBodyView| body(b)
}

/// The items one after the other, each as `enc` writes it.
pub open spec fn joined<T>(items: Seq<T>, enc: spec_fn(T) -> Seq<u8>) -> Seq<u8>
    decreases items.len(),
{
    if items.len() == 0 {
        Seq::empty()
    } else {
        enc(items.first()) + joined(items.drop_first(), enc)
    }
}

/// A list: the number of its items, then the items.
pub open spec fn listed<T>(items: Seq<T>, enc: spec_fn(T) -> Seq<u8>) -> Seq<u8> {
    word(items.len() as u64) + joined(items, enc)
}

/// The bytes that are hashed for a module and the bodies of its functions.
pub open spec fn preimage(module: ModuleView, bodies: Seq<FunctionBodyView>) -> Seq<u8> {
    listed(module.sections, by_chunk()) + listed(
        module.exports.sort_by(ascending()),
        by_word(),
    ) + listed(bodies, by_body())
}

/// The SHA-256 digest of `data`, as `sha2::Sha256` computes it.
pub uninterp spec fn sha256_of(data: Seq<u8>) -> Seq<u8>;

/// The key of a module with the bodies of its functions.
pub open spec fn key_of(module: ModuleView, bodies: Seq<FunctionBodyView>) -> Seq<u8> {
    sha256_of(preimage(module, bodies))
}

/// Feeds `data` to a fresh `sha2::Sha256` and takes its result. Claimed of it: the digest
/// depends on the data alone.
#[verifier::external_body]
fn sha256(data: &[u8]) -> (hash: [u8; 32])
    ensures
        hash@ == sha256_of(data@),
{
    let mut hasher = sha2::Sha256::new();
    hasher.input(data);
    hasher.result().into()
}

/// Writing one more item behind a list writes the list, then the item.
pub proof fn lemma_joined_push<T>(items: Seq<T>, last: T, enc: spec_fn(T) -> Seq<u8>)
    ensures
        joined(items.push(last), enc) == joined(items, enc) + enc(last),
    decreases items.len(),
{
    let longer = items.push(last);
    if items.len() == 0 {
        assert(longer.drop_first() =~= items);
        assert(joined(longer, enc) == enc(last) + joined(items, enc));
        assert(enc(last) + joined(items, enc) =~= joined(items, enc) + enc(last));
    } else {
        assert(longer.drop_first() =~= items.drop_first().push(last));
        lemma_joined_push(items.drop_first(), last, enc);
        assert(joined(longer, enc) == enc(items.first()) + (joined(items.drop_first(), enc) + enc(
            last,
        )));
        assert(joined(longer, enc) =~= joined(items, enc) + enc(last));
    }
}

/// Collects what is to be hashed, and hashes it with SHA-256.
pub struct Sha256Hasher {
    pending: Vec<u8>,
}

impl View for Sha256Hasher {
    type V = Seq<u8>;

    /// The bytes written so far.
    closed spec fn view(&self) -> Seq<u8> {
        self.pending@
    }
}

impl Sha256Hasher {
    /// A hasher that nothing was written to.
    pub fn new() -> (hasher: Self)
        ensures
            hasher@ == Seq::<u8>::empty(),
    {
        Sha256Hasher { pending: Vec::new() }
    }

    /// Writes bytes as they are.
    pub fn write(&mut self, bytes: &[u8])
        ensures
            final(self)@ == old(self)@ + bytes@,
    {
        self.pending.extend_from_slice(bytes);
    }

    /// Writes a number as eight bytes, lowest first.
    pub fn write_u64(&mut self, n: u64)
        ensures
            final(self)@ == old(self)@ + word(n),
    {
        let bytes = u64_to_le_bytes(n);
        self.write(bytes.as_slice());
    }

    /// Writes a length.
    fn write_len(&mut self, n: usize)
        ensures
            final(self)@ == old(self)@ + word(n as u64),
    {
        self.write_u64(n as u64);
    }

    /// Writes a run of bytes behind its length.
    pub fn write_chunk(&mut self, bytes: &[u8])
        ensures
            final(self)@ == old(self)@ + chunk(bytes@),
    {
        self.write_len(bytes.len());
        self.write(bytes);
    }

    /// The SHA-256 digest of all that was written.
    pub fn result(self) -> (hash: [u8; 32])
        ensures
            hash@ == sha256_of(self@),
    {
        sha256(self.pending.as_slice())
    }

    /// The key of a module with the bodies of its functions.
    pub fn digest(module: &Module, function_body_inputs: &Vec<FunctionBodyData>) -> (hash: [
        u8;
        32
    ])
        ensures
            hash@ == key_of(module@, function_body_inputs.deep_view()),
    {
        let mut hasher = Sha256Hasher::new();
        module.hash_for_cache(function_body_inputs, &mut hasher);
        hasher.result()
    }
}

impl Module {
    /// Writes to `state` all of the module and of the bodies of its functions that the
    /// compiler reads.
    pub fn hash_for_cache(
        &self,
        function_body_inputs: &Vec<FunctionBodyData>,
        state: &mut Sha256Hasher,
    )
        ensures
            final(state)@ == old(state)@ + preimage(self@, function_body_inputs.deep_view()),
    {
        let ghost sections = self@.sections;
        let ghost exports = self@.exports.sort_by(ascending());
        let ghost bodies = function_body_inputs.deep_view();

        state.write_len(self.sections.len());
        let ghost start = state@;
        let mut i: usize = 0;
        while i < self.sections.len()
            invariant
                i <= self.sections.len(),
                sections == self.sections.deep_view(),
                state@ == start + joined(sections.take(i as int), by_chunk()),
            decreases self.sections.len() - i,
        {
            state.write_chunk(self.sections[i].as_slice());
            proof {
                lemma_joined_push(sections.take(i as int), sections[i as int], by_chunk());
                assert(sections.take(i + 1) =~= sections.take(i as int).push(sections[i as int]));
            }
            i += 1;
        }
        assert(sections.take(sections.len() as int) =~= sections);

        let ordered = sorted(&self.exports);
        state.write_len(ordered.len());
        let ghost start = state@;
        let mut i: usize = 0;
        while i < ordered.len()
            invariant
                i <= ordered.len(),
                exports == ordered@,
                state@ == start + joined(exports.take(i as int), by_word()),
            decreases ordered.len() - i,
        {
            state.write_u64(ordered[i]);
            proof {
                lemma_joined_push(exports.take(i as int), exports[i as int], by_word());
                assert(exports.take(i + 1) =~= exports.take(i as int).push(exports[i as int]));
            }
            i += 1;
        }
        assert(exports.take(exports.len() as int) =~= exports);
        assert(state@ =~= old(state)@ + listed(sections, by_chunk()) + listed(
            exports,
            by_word(),
        ));

        state.write_len(function_body_inputs.len());
        let ghost start = state@;
        let mut i: usize = 0;
        while i < function_body_inputs.len()
            invariant
                i <= function_body_inputs.len(),
                bodies == function_body_inputs.deep_view(),
                state@ == start + joined(bodies.take(i as int), by_body()),
            decreases function_body_inputs.len() - i,
        {
            state.write_chunk(function_body_inputs[i].data.as_slice());
            state.write_u64(function_body_inputs[i].module_offset);
            proof {
                lemma_joined_push(bodies.take(i as int), bodies[i as int], by_body());
                assert(bodies.take(i + 1) =~= bodies.take(i as int).push(bodies[i as int]));
            }
            i += 1;
        }
        assert(bodies.take(bodies.len() as int) =~= bodies);
    }
}

/// Whether a length can be written as a number of eight bytes.
pub open spec fn fits(len: nat) -> bool {
    len <= u64::MAX
}

/// [`fits`], of a run of bytes, as a value.
pub open spec fn chunk_fits() -> spec_fn(Seq<u8>) -> bool {
    |bytes: Seq<u8>| fits(bytes.len())
}

/// [`fits`], of the bytes of a function's body, as a value.
pub open spec fn body_fits() -> spec_fn(FunctionBodyView) -> bool {
    |b: FunctionBodyView| fits(b.data.len())
}

/// What holds of every number.
pub open spec fn any_word() -> spec_fn(u64) -> bool {
    |n: u64| true
}

/// Whether every length in a module and in the bodies of its functions can be written as
/// a number of eight bytes. It can for all that a machine holds.
pub open spec fn representable(module: ModuleView, bodies: Seq<FunctionBodyView>) -> bool {
    &&& fits(module.sections.len())
    &&& fits(module.exports.len())
    &&& fits(bodies.len())
    &&& forall|i: int| 0 <= i < module.sections.len() ==> fits(#[trigger] module.sections[i].len())
    &&& forall|i: int| 0 <= i < bodies.len() ==> fits((#[trigger] bodies[i]).data.len())
}

/// Every module that a machine holds, with the bodies of its functions, is representable.
pub proof fn lemma_modules_are_representable(module: Module, bodies: Vec<FunctionBodyData>)
    ensures
        representable(module@, bodies.deep_view()),
{
    assert(module.sections.len() == module.sections@.len());
    assert(module.exports.len() == module.exports@.len());
    assert(bodies.len() == bodies@.len());
    assert forall|i: int| 0 <= i < module@.sections.len() implies fits(
        #[trigger] module@.sections[i].len(),
    ) by {
        assert(module.sections@[i].len() == module.sections@[i]@.len());
    }
    assert forall|i: int| 0 <= i < bodies.deep_view().len() implies fits(
        (#[trigger] bodies.deep_view()[i]).data.len(),
    ) by {
        assert(bodies@[i].data.len() == bodies@[i].data@.len());
    }
}

/// Whether two modules are the same to the compiler: the same sections, and the same
/// exports equally often, in whatever order.
pub open spec fn same_content(a: ModuleView, b: ModuleView) -> bool {
    a.sections == b.sections && a.exports.to_multiset() == b.exports.to_multiset()
}

/// Whether what `enc` writes for an item that is `ok` shows where it ends: whatever
/// follows, it can be read back in one way only.
pub open spec fn delimits<T>(enc: spec_fn(T) -> Seq<u8>, ok: spec_fn(T) -> bool) -> bool {
    forall|a: T, b: T, r: Seq<u8>, s: Seq<u8>|
        #![trigger enc(a) + r, enc(b) + s]
        ok(a) && ok(b) && enc(a) + r == enc(b) + s ==> a == b && r == s
}

/// A number shows where it ends.
pub proof fn lemma_word_delimits(a: u64, b: u64, r: Seq<u8>, s: Seq<u8>)
    requires
        word(a) + r == word(b) + s,
    ensures
        a == b,
        r == s,
{
    lemma_auto_spec_u64_to_from_le_bytes();
    let left = word(a) + r;
    let right = word(b) + s;
    assert(left.subrange(0, 8) =~= word(a));
    assert(right.subrange(0, 8) =~= word(b));
    assert(spec_u64_from_le_bytes(word(a)) == a);
    assert(spec_u64_from_le_bytes(word(b)) == b);
    assert(left.subrange(8, left.len() as int) =~= r);
    assert(right.subrange(8, right.len() as int) =~= s);
}

/// A run of bytes behind its length shows where it ends.
pub proof fn lemma_chunk_delimits(a: Seq<u8>, b: Seq<u8>, r: Seq<u8>, s: Seq<u8>)
    requires
        fits(a.len()),
        fits(b.len()),
        chunk(a) + r == chunk(b) + s,
    ensures
        a == b,
        r == s,
{
    assert(chunk(a) + r =~= word(a.len() as u64) + (a + r));
    assert(chunk(b) + s =~= word(b.len() as u64) + (b + s));
    lemma_word_delimits(a.len() as u64, b.len() as u64, a + r, b + s);
    let n = a.len() as int;
    assert((a + r).subrange(0, n) =~= a);
    assert((b + s).subrange(0, n) =~= b);
    assert((a + r).subrange(n, (a + r).len() as int) =~= r);
    assert((b + s).subrange(n, (b + s).len() as int) =~= s);
}

/// The body of a function shows where it ends.
pub proof fn lemma_body_delimits(
    a: FunctionBodyView,
    b: FunctionBodyView,
    r: Seq<u8>,
    s: Seq<u8>,
)
    requires
        fits(a.data.len()),
        fits(b.data.len()),
        body(a) + r == body(b) + s,
    ensures
        a == b,
        r == s,
{
    assert(body(a) + r =~= chunk(a.data) + (word(a.module_offset) + r));
    assert(body(b) + s =~= chunk(b.data) + (word(b.module_offset) + s));
    lemma_chunk_delimits(a.data, b.data, word(a.module_offset) + r, word(b.module_offset) + s);
    lemma_word_delimits(a.module_offset, b.module_offset, r, s);
}

/// Numbers, chunks and bodies all show where they end.
pub proof fn lemma_items_delimit()
    ensures
        delimits(by_word(), any_word()),
        delimits(by_chunk(), chunk_fits()),
        delimits(by_body(), body_fits()),
{
    let words = by_word();
    assert forall|a: u64, b: u64, r: Seq<u8>, s: Seq<u8>|
        #![trigger words(a) + r, words(b) + s]
        words(a) + r == words(b) + s implies a == b && r == s by {
        lemma_word_delimits(a, b, r, s);
    }
    let chunks = by_chunk();
    assert forall|a: Seq<u8>, b: Seq<u8>, r: Seq<u8>, s: Seq<u8>|
        #![trigger chunks(a) + r, chunks(b) + s]
        fits(a.len()) && fits(b.len()) && chunks(a) + r == chunks(b) + s implies a == b && r
            == s by {
        lemma_chunk_delimits(a, b, r, s);
    }
    let bodies = by_body();
    assert forall|a: FunctionBodyView, b: FunctionBodyView, r: Seq<u8>, s: Seq<u8>|
        #![trigger bodies(a) + r, bodies(b) + s]
        fits(a.data.len()) && fits(b.data.len()) && bodies(a) + r == bodies(b)
            + s implies a == b && r == s by {
        lemma_body_delimits(a, b, r, s);
    }
}

/// Items written one after the other can be read back in one way only, if each shows
/// where it ends and their number is known.
pub proof fn lemma_joined_delimits<T>(
    xs: Seq<T>,
    ys: Seq<T>,
    r: Seq<u8>,
    s: Seq<u8>,
    enc: spec_fn(T) -> Seq<u8>,
    ok: spec_fn(T) -> bool,
)
    requires
        delimits(enc, ok),
        xs.len() == ys.len(),
        forall|i: int| 0 <= i < xs.len() ==> ok(#[trigger] xs[i]),
        forall|i: int| 0 <= i < ys.len() ==> ok(#[trigger] ys[i]),
        joined(xs, enc) + r == joined(ys, enc) + s,
    ensures
        xs == ys,
        r == s,
    decreases xs.len(),
{
    if xs.len() == 0 {
        assert(joined(xs, enc) + r =~= r);
        assert(joined(ys, enc) + s =~= s);
        assert(xs =~= ys);
    } else {
        let x = xs.first();
        let y = ys.first();
        let xr = joined(xs.drop_first(), enc) + r;
        let ys_rest = joined(ys.drop_first(), enc) + s;
        assert(joined(xs, enc) + r =~= enc(x) + xr);
        assert(joined(ys, enc) + s =~= enc(y) + ys_rest);
        assert(ok(xs[0]) && ok(ys[0]));
        assert(enc(x) + xr == enc(y) + ys_rest);
        assert(x == y && xr == ys_rest);
        assert forall|i: int| 0 <= i < xs.drop_first().len() implies ok(
            #[trigger] xs.drop_first()[i],
        ) by {
            assert(xs.drop_first()[i] == xs[i + 1]);
        }
        assert forall|i: int| 0 <= i < ys.drop_first().len() implies ok(
            #[trigger] ys.drop_first()[i],
        ) by {
            assert(ys.drop_first()[i] == ys[i + 1]);
        }
        lemma_joined_delimits(xs.drop_first(), ys.drop_first(), r, s, enc, ok);
        assert(xs =~= seq![x] + xs.drop_first());
        assert(ys =~= seq![y] + ys.drop_first());
    }
}

/// A list behind its length can be read back in one way only.
pub proof fn lemma_listed_delimits<T>(
    xs: Seq<T>,
    ys: Seq<T>,
    r: Seq<u8>,
    s: Seq<u8>,
    enc: spec_fn(T) -> Seq<u8>,
    ok: spec_fn(T) -> bool,
)
    requires
        delimits(enc, ok),
        fits(xs.len()),
        fits(ys.len()),
        forall|i: int| 0 <= i < xs.len() ==> ok(#[trigger] xs[i]),
        forall|i: int| 0 <= i < ys.len() ==> ok(#[trigger] ys[i]),
        listed(xs, enc) + r == listed(ys, enc) + s,
    ensures
        xs == ys,
        r == s,
{
    assert(listed(xs, enc) + r =~= word(xs.len() as u64) + (joined(xs, enc) + r));
    assert(listed(ys, enc) + s =~= word(ys.len() as u64) + (joined(ys, enc) + s));
    lemma_word_delimits(
        xs.len() as u64,
        ys.len() as u64,
        joined(xs, enc) + r,
        joined(ys, enc) + s,
    );
    lemma_joined_delimits(xs, ys, r, s, enc, ok);
}

/// Modules that are the same to the compiler have the same key with the same bodies,
/// however their exports are arranged and whatever else differs between them.
pub proof fn lemma_key_depends_on_content_only(
    a: ModuleView,
    b: ModuleView,
    bodies: Seq<FunctionBodyView>,
)
    requires
        same_content(a, b),
    ensures
        preimage(a, bodies) == preimage(b, bodies),
        key_of(a, bodies) == key_of(b, bodies),
{
    lemma_sort_ignores_arrangement(a.exports, b.exports);
}

/// What is hashed can be read back in one way only: two modules with their bodies for
/// which the same bytes are hashed are the same to the compiler, and the bodies are the
/// same.
pub proof fn lemma_preimage_tells_content(
    a: ModuleView,
    a_bodies: Seq<FunctionBodyView>,
    b: ModuleView,
    b_bodies: Seq<FunctionBodyView>,
)
    requires
        representable(a, a_bodies),
        representable(b, b_bodies),
        preimage(a, a_bodies) == preimage(b, b_bodies),
    ensures
        same_content(a, b),
        a_bodies == b_bodies,
{
    let a_exports = a.exports.sort_by(ascending());
    let b_exports = b.exports.sort_by(ascending());
    lemma_ascending_is_total();
    a.exports.lemma_sort_by_ensures(ascending());
    b.exports.lemma_sort_by_ensures(ascending());
    a.exports.to_multiset_ensures();
    b.exports.to_multiset_ensures();
    a_exports.to_multiset_ensures();
    b_exports.to_multiset_ensures();
    lemma_items_delimit();

    let a_tail = listed(a_exports, by_word()) + listed(a_bodies, by_body());
    let b_tail = listed(b_exports, by_word()) + listed(b_bodies, by_body());
    assert(preimage(a, a_bodies) =~= listed(a.sections, by_chunk()) + a_tail);
    assert(preimage(b, b_bodies) =~= listed(b.sections, by_chunk()) + b_tail);
    assert forall|i: int| 0 <= i < a.sections.len() implies chunk_fits()(
        #[trigger] a.sections[i],
    ) by {}
    assert forall|i: int| 0 <= i < b.sections.len() implies chunk_fits()(
        #[trigger] b.sections[i],
    ) by {}
    lemma_listed_delimits(a.sections, b.sections, a_tail, b_tail, by_chunk(), chunk_fits());

    lemma_listed_delimits(
        a_exports,
        b_exports,
        listed(a_bodies, by_body()),
        listed(b_bodies, by_body()),
        by_word(),
        any_word(),
    );

    let nothing = Seq::<u8>::empty();
    assert forall|i: int| 0 <= i < a_bodies.len() implies body_fits()(#[trigger] a_bodies[i]) by {}
    assert forall|i: int| 0 <= i < b_bodies.len() implies body_fits()(#[trigger] b_bodies[i]) by {}
    lemma_listed_delimits(a_bodies, b_bodies, nothing, nothing, by_body(), body_fits());
}

/// A change to a section, to the exports or to the body of a function changes the key,
/// unless SHA-256 gives the two inputs the same digest.
pub proof fn lemma_key_tells_content(
    a: ModuleView,
    a_bodies: Seq<FunctionBodyView>,
    b: ModuleView,
    b_bodies: Seq<FunctionBodyView>,
)
    requires
        representable(a, a_bodies),
        representable(b, b_bodies),
        !same_content(a, b) || a_bodies != b_bodies,
        sha256_of(preimage(a, a_bodies)) == sha256_of(preimage(b, b_bodies)) ==> preimage(
            a,
            a_bodies,
        ) == preimage(b, b_bodies),
    ensures
        key_of(a, a_bodies) != key_of(b, b_bodies),
{
    if preimage(a, a_bodies) == preimage(b, b_bodies) {
        lemma_preimage_tells_content(a, a_bodies, b, b_bodies);
    }
}

} // verus!
