use crate::context::{CommandView, Context, ContextView, ProgramId};
use crate::error::Error;
use crate::program::{accepts, compiled, MeshProgram, MeshProgramView, MISSING_POSITION_INPUT};
use vstd::prelude::*;

verus! {

/// Where a material takes the surface color from.
#[derive(Debug, Clone, Copy, PartialEq, Eq, Structural)]
pub enum MaterialKind {
    /// One color for the whole surface.
    Color,
    /// A texture, looked up by the uv coordinates.
    Texture,
    /// A shader of the caller's, told apart by a number of the caller's.
    Custom(u32),
}

/// The vertex inputs besides the position: those that a geometry supplies,
/// or those that a material reads.
#[derive(Debug, Clone, Copy, PartialEq, Eq, Structural)]
pub struct AttributeSet {
    pub normals: bool,
    pub uvs: bool,
}

/// The key of a cached program: the kind of material and what the geometry
/// can supply.
#[derive(Debug, Clone, Copy, PartialEq, Eq, Structural)]
pub struct Signature {
    pub material: MaterialKind,
    pub attributes: AttributeSet,
    pub instanced: bool,
}

/// One entry of the cache, as contracts see it.
pub struct CachedProgram {
    pub program: MeshProgramView,
    /// The number of handles that are out. Never zero.
    pub users: nat,
}

/// What a cache holds: the compiled program of each signature in use.
pub type CacheView = Map<Signature, CachedProgram>;

/// Whether every program of the cache has a handle out. This holds of
/// every cache: an entry goes with its last handle.
pub open spec fn in_use(cache: CacheView) -> bool {
    forall|signature: Signature|
        cache.contains_key(signature) ==> (#[trigger] cache[signature]).users >= 1
}

/// Whether a request for `signature` can be served: either the program is
/// there and one more handle can be counted, or it can be compiled from
/// `fragment`.
pub open spec fn request_succeeds(
    cache: CacheView,
    ctx: ContextView,
    signature: Signature,
    fragment: Seq<char>,
) -> bool {
    if cache.contains_key(signature) {
        cache[signature].users < u64::MAX
    } else {
        accepts(fragment) && ctx.remaining() > 0
    }
}

/// The cache after a request for `signature`. A request that cannot be
/// served leaves no entry behind.
pub open spec fn cache_after_request(
    cache: CacheView,
    ctx: ContextView,
    signature: Signature,
    fragment: Seq<char>,
) -> CacheView {
    if !request_succeeds(cache, ctx, signature, fragment) {
        cache
    } else if cache.contains_key(signature) {
        cache.insert(
            signature,
            CachedProgram {
                program: cache[signature].program,
                users: cache[signature].users + 1,
            },
        )
    } else {
        cache.insert(
            signature,
            CachedProgram {
                program: MeshProgramView::of_source(
                    ProgramId { raw: ctx.next_handle },
                    fragment,
                    signature.instanced,
                ),
                users: 1,
            },
        )
    }
}

/// The context after a request for `signature`: a program is compiled only
/// where the cache has none.
pub open spec fn context_after_request(
    cache: CacheView,
    ctx: ContextView,
    signature: Signature,
    fragment: Seq<char>,
) -> ContextView {
    if request_succeeds(cache, ctx, signature, fragment) && !cache.contains_key(signature) {
        compiled(ctx, fragment, signature.instanced)
    } else {
        ctx
    }
}

/// The cache after one handle for `signature` was given back: the entry of
/// the last handle goes.
pub open spec fn cache_after_release(cache: CacheView, signature: Signature) -> CacheView {
    if !cache.contains_key(signature) {
        cache
    } else if cache[signature].users <= 1 {
        cache.remove(signature)
    } else {
        cache.insert(
            signature,
            CachedProgram {
                program: cache[signature].program,
                users: (cache[signature].users - 1) as nat,
            },
        )
    }
}

/// The context after one handle for `signature` was given back: the program
/// of the last handle is deleted.
pub open spec fn context_after_release(cache: CacheView, ctx: ContextView, signature: Signature)
    -> ContextView {
    if cache.contains_key(signature) && cache[signature].users <= 1 {
        ctx.record(seq![CommandView::DeleteProgram { program: cache[signature].program.id }])
    } else {
        ctx
    }
}

/// What a handle stands for.
pub struct ProgramHandleView {
    pub signature: Signature,
    pub program: MeshProgramView,
}

/// One user's share of a cached program. It is given back with
/// [`ProgramCache::release`], which takes it by value.
pub struct ProgramHandle {
    signature: Signature,
    program: MeshProgram,
}

impl View for ProgramHandle {
    type V = ProgramHandleView;

    closed spec fn view(&self) -> ProgramHandleView {
        ProgramHandleView { signature: self.signature, program: self.program@ }
    }
}

impl ProgramHandle {
    pub fn signature(&self) -> (signature: Signature)
        ensures
            signature == self@.signature,
    {
        self.signature
    }

    pub fn program(&self) -> (program: &MeshProgram)
        ensures
            program@ == self@.program,
    {
        &self.program
    }
}

struct Entry {
    signature: Signature,
    program: MeshProgram,
    users: u64,
}

impl Entry {
    spec fn slot(self) -> CachedProgram {
        CachedProgram { program: self.program@, users: self.users as nat }
    }
}

spec fn holds(entries: Seq<Entry>, signature: Signature) -> bool {
    exists|i: int| 0 <= i < entries.len() && #[trigger] entries[i].signature == signature
}

spec fn position(entries: Seq<Entry>, signature: Signature) -> int {
    choose|i: int| 0 <= i < entries.len() && #[trigger] entries[i].signature == signature
}

spec fn distinct(entries: Seq<Entry>) -> bool {
    forall|i: int, j: int|
        0 <= i < j < entries.len() ==> #[trigger] entries[i].signature
            != #[trigger] entries[j].signature
}

spec fn view_of(entries: Seq<Entry>) -> CacheView {
    Map::new(
        |signature: Signature| holds(entries, signature),
        |signature: Signature| entries[position(entries, signature)].slot(),
    )
}

proof fn lemma_view_at(entries: Seq<Entry>, i: int)
    requires
        distinct(entries),
        0 <= i < entries.len(),
    ensures
        view_of(entries).contains_key(entries[i].signature),
        view_of(entries)[entries[i].signature] == entries[i].slot(),
{
    let signature = entries[i].signature;
    assert(holds(entries, signature));
    let j = position(entries, signature);
    assert(entries[j].signature == signature);
    if i < j {
        assert(entries[i].signature != entries[j].signature);
    } else if j < i {
        assert(entries[j].signature != entries[i].signature);
    }
}

proof fn lemma_in_use(entries: Seq<Entry>)
    requires
        forall|i: int| 0 <= i < entries.len() ==> (#[trigger] entries[i]).users >= 1,
    ensures
        in_use(view_of(entries)),
{
    assert forall|signature: Signature| view_of(entries).contains_key(signature) implies (
    #[trigger] view_of(entries)[signature]).users >= 1 by {
        let i = position(entries, signature);
        assert(entries[i].users >= 1);
    }
}

proof fn lemma_view_update(entries: Seq<Entry>, i: int, entry: Entry)
    requires
        distinct(entries),
        0 <= i < entries.len(),
        entry.signature == entries[i].signature,
    ensures
        distinct(entries.update(i, entry)),
        view_of(entries.update(i, entry)) == view_of(entries).insert(
            entry.signature,
            entry.slot(),
        ),
{
    let after = entries.update(i, entry);
    assert forall|a: int, b: int| 0 <= a < b < after.len() implies #[trigger] after[a].signature
        != #[trigger] after[b].signature by {
        assert(entries[a].signature != entries[b].signature);
    }
    let expected = view_of(entries).insert(entry.signature, entry.slot());
    assert forall|s: Signature| view_of(after).contains_key(s) == expected.contains_key(s) by {
        if holds(entries, s) {
            let j = position(entries, s);
            assert(after[j].signature == s);
        }
        if holds(after, s) {
            let j = position(after, s);
            assert(entries[j].signature == s);
        }
        assert(after[i].signature == entry.signature);
    }
    assert forall|s: Signature| view_of(after).contains_key(s) implies view_of(after)[s]
        == expected[s] by {
        let j = position(after, s);
        lemma_view_at(after, j);
        if s == entry.signature {
            lemma_view_at(after, i);
        } else {
            assert(entries[j].signature == s);
            lemma_view_at(entries, j);
        }
    }
    assert(view_of(after) =~= expected);
}

proof fn lemma_view_push(entries: Seq<Entry>, entry: Entry)
    requires
        distinct(entries),
        !holds(entries, entry.signature),
    ensures
        distinct(entries.push(entry)),
        view_of(entries.push(entry)) == view_of(entries).insert(entry.signature, entry.slot()),
{
    let after = entries.push(entry);
    let last = entries.len() as int;
    assert forall|a: int, b: int| 0 <= a < b < after.len() implies #[trigger] after[a].signature
        != #[trigger] after[b].signature by {
        if b < last {
            assert(entries[a].signature != entries[b].signature);
        } else {
            assert(entries[a].signature == after[a].signature);
        }
    }
    let expected = view_of(entries).insert(entry.signature, entry.slot());
    assert forall|s: Signature| view_of(after).contains_key(s) == expected.contains_key(s) by {
        if holds(entries, s) {
            let j = position(entries, s);
            assert(after[j].signature == s);
        }
        if holds(after, s) {
            let j = position(after, s);
            if j < last {
                assert(entries[j].signature == s);
            }
        }
        assert(after[last].signature == entry.signature);
    }
    assert forall|s: Signature| view_of(after).contains_key(s) implies view_of(after)[s]
        == expected[s] by {
        let j = position(after, s);
        lemma_view_at(after, j);
        if s == entry.signature {
            lemma_view_at(after, last);
        } else {
            assert(entries[j].signature == s);
            lemma_view_at(entries, j);
        }
    }
    assert(view_of(after) =~= expected);
}

proof fn lemma_view_remove(entries: Seq<Entry>, i: int)
    requires
        distinct(entries),
        0 <= i < entries.len(),
    ensures
        distinct(entries.remove(i)),
        view_of(entries.remove(i)) == view_of(entries).remove(entries[i].signature),
{
    let after = entries.remove(i);
    let gone = entries[i].signature;
    assert forall|a: int| 0 <= a < after.len() implies #[trigger] after[a] == entries[if a < i {
        a
    } else {
        a + 1
    }] by {}
    assert forall|a: int, b: int| 0 <= a < b < after.len() implies #[trigger] after[a].signature
        != #[trigger] after[b].signature by {
        let a0 = if a < i { a } else { a + 1 };
        let b0 = if b < i { b } else { b + 1 };
        assert(after[a] == entries[a0]);
        assert(after[b] == entries[b0]);
        assert(entries[a0].signature != entries[b0].signature);
    }
    let expected = view_of(entries).remove(gone);
    assert forall|s: Signature| view_of(after).contains_key(s) == expected.contains_key(s) by {
        if holds(entries, s) && s != gone {
            let j = position(entries, s);
            let k = if j < i { j } else { j - 1 };
            assert(after[k] == entries[j]);
            assert(after[k].signature == s);
        }
        if holds(after, s) {
            let k = position(after, s);
            let j = if k < i { k } else { k + 1 };
            assert(after[k] == entries[j]);
            assert(entries[j].signature == s);
            if j < i {
                assert(entries[j].signature != entries[i].signature);
            } else {
                assert(entries[i].signature != entries[j].signature);
            }
        }
    }
    assert forall|s: Signature| view_of(after).contains_key(s) implies view_of(after)[s]
        == expected[s] by {
        let k = position(after, s);
        let j = if k < i { k } else { k + 1 };
        assert(after[k] == entries[j]);
        lemma_view_at(after, k);
        lemma_view_at(entries, j);
    }
    assert(view_of(after) =~= expected);
}

/// Whether `handle`, the new cache and the new context are what a request
/// for `signature` with the fragment shader `fragment` leaves.
pub open spec fn served(
    cache: CacheView,
    ctx: ContextView,
    signature: Signature,
    fragment: Seq<char>,
    new_cache: CacheView,
    new_ctx: ContextView,
    handle: Result<ProgramHandle, Error>,
) -> bool {
    &&& handle is Ok <==> request_succeeds(cache, ctx, signature, fragment)
    &&& new_cache == cache_after_request(cache, ctx, signature, fragment)
    &&& new_ctx == context_after_request(cache, ctx, signature, fragment)
    &&& handle is Ok ==> handle->Ok_0@ == (ProgramHandleView {
        signature,
        program: new_cache[signature].program,
    })
    &&& handle is Err ==> if !cache.contains_key(signature) && !accepts(fragment) {
        handle->Err_0.is_compile_failure(MISSING_POSITION_INPUT@)
    } else {
        handle->Err_0 == Error::ResourceCreationFailed
    }
}

/// The cache and the context after `n` requests for `signature` in a row.
pub open spec fn after_requests(
    cache: CacheView,
    ctx: ContextView,
    signature: Signature,
    fragment: Seq<char>,
    n: nat,
) -> (CacheView, ContextView)
    decreases n,
{
    if n == 0 {
        (cache, ctx)
    } else {
        let before = after_requests(cache, ctx, signature, fragment, (n - 1) as nat);
        (
            cache_after_request(before.0, before.1, signature, fragment),
            context_after_request(before.0, before.1, signature, fragment),
        )
    }
}

/// The cache and the context after `n` handles for `signature` were given
/// back in a row.
pub open spec fn after_releases(cache: CacheView, ctx: ContextView, signature: Signature, n: nat)
    -> (CacheView, ContextView)
    decreases n,
{
    if n == 0 {
        (cache, ctx)
    } else {
        after_releases(
            cache_after_release(cache, signature),
            context_after_release(cache, ctx, signature),
            signature,
            (n - 1) as nat,
        )
    }
}

/// When all the handles of a program come back, the program is deleted,
/// once, and its entry goes.
pub proof fn lemma_last_release_deletes(
    cache: CacheView,
    ctx: ContextView,
    signature: Signature,
    n: nat,
)
    requires
        cache.contains_key(signature),
        cache[signature].users == n,
        n >= 1,
    ensures
        after_releases(cache, ctx, signature, n) == (
            cache.remove(signature),
            ctx.record(seq![CommandView::DeleteProgram { program: cache[signature].program.id }]),
        ),
    decreases n,
{
    if n > 1 {
        let next = cache_after_release(cache, signature);
        lemma_last_release_deletes(next, ctx, signature, (n - 1) as nat);
        assert(next.remove(signature) =~= cache.remove(signature));
    } else {
        reveal_with_fuel(after_releases, 2);
    }
}

/// Requesting one signature `n` times compiles its program once and hands
/// out the same program each time; when the `n` handles have come back the
/// program is deleted and the cache is as it was before the first request,
/// so that the next request compiles again (where a handle is left for it).
pub proof fn lemma_requests_compile_once(
    cache: CacheView,
    ctx: ContextView,
    signature: Signature,
    fragment: Seq<char>,
    n: nat,
)
    requires
        !cache.contains_key(signature),
        accepts(fragment),
        ctx.remaining() > 0,
        1 <= n <= u64::MAX,
    ensures
        ({
            let program = MeshProgramView::of_source(
                ProgramId { raw: ctx.next_handle },
                fragment,
                signature.instanced,
            );
            let (shared, recorded) = after_requests(cache, ctx, signature, fragment, n);
            let (released, deleted) = after_releases(shared, recorded, signature, n);
            &&& shared == cache.insert(signature, CachedProgram { program, users: n })
            &&& recorded == compiled(ctx, fragment, signature.instanced)
            &&& released == cache
            &&& deleted == recorded.record(seq![CommandView::DeleteProgram { program: program.id }])
            &&& deleted.remaining() > 0 ==> context_after_request(
                released,
                deleted,
                signature,
                fragment,
            ) == compiled(deleted, fragment, signature.instanced)
        }),
    decreases n,
{
    let program = MeshProgramView::of_source(
        ProgramId { raw: ctx.next_handle },
        fragment,
        signature.instanced,
    );
    let (shared, recorded) = after_requests(cache, ctx, signature, fragment, n);
    if n == 1 {
        reveal_with_fuel(after_requests, 2);
    } else {
        lemma_requests_compile_once(cache, ctx, signature, fragment, (n - 1) as nat);
        let before = after_requests(cache, ctx, signature, fragment, (n - 1) as nat);
        assert(before.0.contains_key(signature));
        assert(shared =~= cache.insert(signature, CachedProgram { program, users: n }));
    }
    lemma_last_release_deletes(shared, recorded, signature, n);
    assert(shared.remove(signature) =~= cache);
}

/// The compiled programs, shared by everything that draws with the same
/// kind of material on the same kind of geometry. A program is compiled when
/// it is first asked for and deleted when its last handle comes back.
pub struct ProgramCache {
    entries: Vec<Entry>,
}

impl View for ProgramCache {
    type V = CacheView;

    closed spec fn view(&self) -> CacheView {
        view_of(self.entries@)
    }
}

impl ProgramCache {
    #[verifier::type_invariant]
    spec fn well_formed(self) -> bool {
        &&& distinct(self.entries@)
        &&& forall|i: int| 0 <= i < self.entries@.len() ==> (#[trigger] self.entries@[i]).users >= 1
    }

    /// A cache without programs.
    pub fn new() -> (cache: ProgramCache)
        ensures
            cache@ == Map::<Signature, CachedProgram>::empty(),
    {
        let cache = ProgramCache { entries: Vec::new() };
        assert(cache@ =~= Map::<Signature, CachedProgram>::empty());
        cache
    }

    fn take_entries(&mut self) -> (entries: Vec<Entry>)
        ensures
            entries@ == old(self).entries@,
    {
        let mut emptied = ProgramCache { entries: Vec::new() };
        std::mem::swap(self, &mut emptied);
        emptied.entries
    }

    fn find(&self, signature: Signature) -> (found: Option<usize>)
        ensures
            match found {
                Some(i) => i < self.entries@.len() && self.entries@[i as int].signature
                    == signature,
                None => !holds(self.entries@, signature),
            },
    {
        let mut i: usize = 0;
        while i < self.entries.len()
            invariant
                i <= self.entries@.len(),
                forall|j: int| 0 <= j < i ==> (#[trigger] self.entries@[j]).signature != signature,
            decreases self.entries@.len() - i,
        {
            if self.entries[i].signature == signature {
                return Some(i);
            }
            i += 1;
        }
        None
    }

    /// Whether the program of `signature` is compiled.
    pub fn contains(&self, signature: Signature) -> (found: bool)
        ensures
            found == self@.contains_key(signature),
    {
        self.find(signature).is_some()
    }

    /// The number of handles that are out for `signature`.
    pub fn users(&self, signature: Signature) -> (users: u64)
        ensures
            self@.contains_key(signature) ==> users == self@[signature].users && users >= 1,
            !self@.contains_key(signature) ==> users == 0,
    {
        proof {
            use_type_invariant(self);
        }
        match self.find(signature) {
            Some(i) => {
                proof {
                    lemma_view_at(self.entries@, i as int);
                }
                self.entries[i].users
            },
            None => 0,
        }
    }
    /// Hands out a handle to the program of `signature`, which is compiled
    /// from `fragment_shader_source` where the cache does not hold it yet.
    pub fn request(
        &mut self,
        ctx: &mut Context,
        signature: Signature,
        fragment_shader_source: &str,
    ) -> (handle: Result<ProgramHandle, Error>)
        ensures
            in_use(old(self)@),
            served(
                old(self)@,
                old(ctx)@,
                signature,
                fragment_shader_source@,
                final(self)@,
                final(ctx)@,
                handle,
            ),
    {
        proof {
            use_type_invariant(&*self);
            lemma_in_use(self.entries@);
        }
        match self.find(signature) {
            Some(i) => {
                proof {
                    lemma_view_at(self.entries@, i as int);
                }
                let users = self.entries[i].users;
                if users == u64::MAX {
                    return Err(Error::ResourceCreationFailed);
                }
                let program = self.entries[i].program.share();
                let ghost before = self.entries@;
                let mut entries = self.take_entries();
                entries[i].users = users + 1;
                proof {
                    assert(entries@ =~= before.update(i as int, entries@[i as int]));
                    lemma_view_update(before, i as int, entries@[i as int]);
                }
                *self = ProgramCache { entries };
                Ok(ProgramHandle { signature, program })
            },
            None => {
                match MeshProgram::compile(ctx, fragment_shader_source, signature.instanced) {
                    Ok(program) => {
                        let shared = program.share();
                        proof {
                            lemma_view_push(
                                self.entries@,
                                Entry { signature, program, users: 1 },
                            );
                        }
                        let mut entries = self.take_entries();
                        entries.push(Entry { signature, program, users: 1 });
                        *self = ProgramCache { entries };
                        Ok(ProgramHandle { signature, program: shared })
                    },
                    Err(e) => Err(e),
                }
            },
        }
    }

    /// Returns a shared handle to the program of `signature`. The program is
    /// compiled at most once: `source_fn` is asked for the fragment shader
    /// only where the cache does not hold the program. Where the cache holds
    /// it, no fragment shader plays a part, and the outcome is that of a
    /// request with the empty one.
    pub fn get_or_compile<F: FnOnce() -> String>(
        &mut self,
        ctx: &mut Context,
        signature: Signature,
        source_fn: F,
    ) -> (handle: Result<ProgramHandle, Error>)
        requires
            source_fn.requires(()),
        ensures
            in_use(old(self)@),
            old(self)@.contains_key(signature) ==> served(
                old(self)@,
                old(ctx)@,
                signature,
                Seq::empty(),
                final(self)@,
                final(ctx)@,
                handle,
            ),
            !old(self)@.contains_key(signature) ==> exists|source: String|
                source_fn.ensures((), source) && served(
                    old(self)@,
                    old(ctx)@,
                    signature,
                    source@,
                    final(self)@,
                    final(ctx)@,
                    handle,
                ),
    {
        if self.contains(signature) {
            proof {
                reveal_strlit("");
                assert(""@ =~= Seq::<char>::empty());
            }
            self.request(ctx, signature, "")
        } else {
            let source = source_fn();
            self.request(ctx, signature, source.as_str())
        }
    }

    /// Takes a handle back. The program of the last handle is deleted and
    /// its entry goes.
    pub fn release(&mut self, ctx: &mut Context, handle: ProgramHandle)
        ensures
            in_use(old(self)@),
            final(self)@ == cache_after_release(old(self)@, handle@.signature),
            final(ctx)@ == context_after_release(old(self)@, old(ctx)@, handle@.signature),
    {
        proof {
            use_type_invariant(&*self);
            lemma_in_use(self.entries@);
        }
        match self.find(handle.signature) {
            Some(i) => {
                proof {
                    lemma_view_at(self.entries@, i as int);
                }
                let users = self.entries[i].users;
                if users <= 1 {
                    proof {
                        lemma_view_remove(self.entries@, i as int);
                    }
                    let mut entries = self.take_entries();
                    let entry = entries.remove(i);
                    *self = ProgramCache { entries };
                    entry.program.delete(ctx);
                } else {
                    let ghost before = self.entries@;
                    let mut entries = self.take_entries();
                    entries[i].users = users - 1;
                    proof {
                        assert(entries@ =~= before.update(i as int, entries@[i as int]));
                        lemma_view_update(before, i as int, entries@[i as int]);
                    }
                    *self = ProgramCache { entries };
                }
            },
            None => {},
        }
    }
}

} // verus!
