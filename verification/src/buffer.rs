use crate::context::{
    BufferId, BufferTarget, Command, CommandView, Context, ContextView, Usage,
};
use crate::error::Error;
use crate::math::{Scalar, Vec2, Vec3, Vec4};
use core::marker::PhantomData;
use vstd::prelude::*;

verus! {

/// A type whose values can be uploaded to a buffer: each value is a fixed
/// number of 32-bit words.
pub trait BufferDataType: Copy {
    /// The number of words in one value.
    spec fn size_spec() -> nat;

    /// The words of this value, in upload order.
    spec fn words(&self) -> Seq<u32>;

    proof fn lemma_words_len(&self)
        ensures
            self.words().len() == Self::size_spec(),
    ;

    fn size() -> (n: u32)
        ensures
            n == Self::size_spec(),
            1 <= n <= 4,
    ;

    /// Appends the words of this value to `out`.
    fn extend_words(&self, out: &mut Vec<u32>)
        ensures
            final(out)@ == old(out)@ + self.words(),
    ;
}

impl BufferDataType for u32 {
    open spec fn size_spec() -> nat {
        1
    }

    open spec fn words(&self) -> Seq<u32> {
        seq![*self]
    }

    proof fn lemma_words_len(&self) {
    }

    fn size() -> (n: u32) {
        1
    }

    fn extend_words(&self, out: &mut Vec<u32>) {
        out.push(*self);
        assert(out@ =~= old(out)@ + seq![*self]);
    }
}

impl BufferDataType for Scalar {
    open spec fn size_spec() -> nat {
        1
    }

    open spec fn words(&self) -> Seq<u32> {
        seq![self.bits]
    }

    proof fn lemma_words_len(&self) {
    }

    fn size() -> (n: u32) {
        1
    }

    fn extend_words(&self, out: &mut Vec<u32>) {
        out.push(self.bits);
        assert(out@ =~= old(out)@ + seq![self.bits]);
    }
}

impl BufferDataType for Vec2 {
    open spec fn size_spec() -> nat {
        2
    }

    open spec fn words(&self) -> Seq<u32> {
        Vec2::words(*self)
    }

    proof fn lemma_words_len(&self) {
    }

    fn size() -> (n: u32) {
        2
    }

    fn extend_words(&self, out: &mut Vec<u32>) {
        out.push(self.x.bits);
        out.push(self.y.bits);
        assert(out@ =~= old(out)@ + Vec2::words(*self));
    }
}

impl BufferDataType for Vec3 {
    open spec fn size_spec() -> nat {
        3
    }

    open spec fn words(&self) -> Seq<u32> {
        Vec3::words(*self)
    }

    proof fn lemma_words_len(&self) {
    }

    fn size() -> (n: u32) {
        3
    }

    fn extend_words(&self, out: &mut Vec<u32>) {
        out.push(self.x.bits);
        out.push(self.y.bits);
        out.push(self.z.bits);
        assert(out@ =~= old(out)@ + Vec3::words(*self));
    }
}

impl BufferDataType for Vec4 {
    open spec fn size_spec() -> nat {
        4
    }

    open spec fn words(&self) -> Seq<u32> {
        Vec4::words(*self)
    }

    proof fn lemma_words_len(&self) {
    }

    fn size() -> (n: u32) {
        4
    }

    fn extend_words(&self, out: &mut Vec<u32>) {
        out.push(self.x.bits);
        out.push(self.y.bits);
        out.push(self.z.bits);
        out.push(self.w.bits);
        assert(out@ =~= old(out)@ + Vec4::words(*self));
    }
}

/// The words of all values of `data`, value after value.
pub open spec fn flatten<T: BufferDataType>(data: Seq<T>) -> Seq<u32>
    decreases data.len(),
{
    if data.len() == 0 {
        Seq::empty()
    } else {
        flatten(data.drop_last()) + data.last().words()
    }
}

/// Flattening yields as many words as each value has, for each value.
pub proof fn lemma_flatten_len<T: BufferDataType>(data: Seq<T>)
    ensures
        flatten(data).len() == data.len() * T::size_spec(),
    decreases data.len(),
{
    if data.len() > 0 {
        lemma_flatten_len(data.drop_last());
        data.last().lemma_words_len();
        assert((data.len() - 1) * T::size_spec() + T::size_spec() == data.len() * T::size_spec())
            by (nonlinear_arith);
    }
}

/// The words of `data`, ready for upload.
pub fn flatten_words<T: BufferDataType>(data: &[T]) -> (words: Vec<u32>)
    ensures
        words@ == flatten(data@),
{
    let mut words: Vec<u32> = Vec::new();
    let mut i: usize = 0;
    while i < data.len()
        invariant
            i <= data.len(),
            words@ == flatten(data@.take(i as int)),
        decreases data.len() - i,
    {
        data[i].extend_words(&mut words);
        proof {
            let next = data@.take(i + 1);
            assert(next.drop_last() =~= data@.take(i as int));
            assert(next.last() == data@[i as int]);
        }
        i += 1;
    }
    assert(data@.take(data.len() as int) =~= data@);
    words
}

/// Whether `len` values of `size` words each are few enough for their
/// number to be told to the device.
pub open spec fn fits_device(len: nat, size: nat) -> bool {
    len * size <= u32::MAX
}

/// Tells whether `len` values of `size` words each fit the device.
pub fn fits(len: usize, size: u32) -> (fits: bool)
    requires
        1 <= size <= 4,
    ensures
        fits == fits_device(len as nat, size as nat),
{
    let limit: usize = 0xFFFF_FFFF;
    assert(len <= limit / (size as usize) <==> len * size <= limit) by (nonlinear_arith)
        requires
            1 <= size <= 4,
            limit == 0xFFFF_FFFF,
    ;
    len <= limit / (size as usize)
}

/// The usage hint of the fill that follows a fill with hint `previous`:
/// static for the first fill of a buffer, dynamic from then on.
pub open spec fn next_usage(previous: Option<Usage>) -> Usage {
    if previous is None {
        Usage::Static
    } else {
        Usage::Dynamic
    }
}

/// The commands that replace the contents of `buffer` by `words`.
pub open spec fn upload_commands(
    target: BufferTarget,
    buffer: BufferId,
    usage: Usage,
    words: Seq<u32>,
) -> Seq<CommandView> {
    seq![
        CommandView::BindBuffer { target, buffer },
        CommandView::BufferData { target, usage, data: words },
        CommandView::UnbindBuffer { target },
    ]
}

fn upload(ctx: &mut Context, target: BufferTarget, buffer: BufferId, usage: Usage, words: Vec<u32>)
    ensures
        final(ctx)@ == old(ctx)@.record(upload_commands(target, buffer, usage, words@)),
{
    ctx.record(Command::BindBuffer { target, buffer });
    ctx.record(Command::BufferData { target, usage, data: words });
    ctx.record(Command::UnbindBuffer { target });
    assert(ctx@.commands =~= old(ctx)@.commands + upload_commands(target, buffer, usage, words@));
}

/// What an instance buffer holds.
pub struct InstanceBufferView {
    pub id: BufferId,
    /// The number of values of the last fill.
    pub attribute_count: nat,
    /// The hint of the last fill; `None` before the first.
    pub usage: Option<Usage>,
}

impl InstanceBufferView {
    /// The buffer after a fill with `len` values.
    pub open spec fn filled(self, len: nat) -> InstanceBufferView {
        InstanceBufferView {
            id: self.id,
            attribute_count: len,
            usage: Some(next_usage(self.usage)),
        }
    }

    /// The number of words held, where one value has `size` words.
    pub open spec fn word_count(self, size: nat) -> nat {
        self.attribute_count * size
    }
}

/// A fill followed by a count reports the size of what was uploaded: as many
/// words as the flattened data has, which for values of one word is the
/// length of the data. After a fill with no data the count is zero.
pub proof fn lemma_fill_then_count<T: BufferDataType>(buffer: InstanceBufferView, data: Seq<T>)
    ensures
        buffer.filled(data.len()).word_count(T::size_spec()) == flatten(data).len(),
        T::size_spec() == 1 ==> buffer.filled(data.len()).word_count(T::size_spec()) == data.len(),
        data.len() == 0 ==> buffer.filled(data.len()).word_count(T::size_spec()) == 0,
{
    lemma_flatten_len(data);
    assert(0 * T::size_spec() == 0) by (nonlinear_arith);
    assert(data.len() * 1 == data.len()) by (nonlinear_arith);
}

/// A buffer containing per instance data.
pub struct InstanceBuffer<T: BufferDataType> {
    id: BufferId,
    attribute_count: u32,
    usage: Option<Usage>,
    _dummy: PhantomData<T>,
}

impl<T: BufferDataType> View for InstanceBuffer<T> {
    type V = InstanceBufferView;

    closed spec fn view(&self) -> InstanceBufferView {
        InstanceBufferView {
            id: self.id,
            attribute_count: self.attribute_count as nat,
            usage: self.usage,
        }
    }
}

impl<T: BufferDataType> InstanceBuffer<T> {
    #[verifier::type_invariant]
    spec fn within_limit(self) -> bool {
        fits_device(self.attribute_count as nat, T::size_spec())
    }

    /// The state of a context after an instance buffer was created in it and
    /// given `data`: an empty `data` is not uploaded.
    pub open spec fn created_with(ctx: ContextView, data: Seq<T>) -> ContextView {
        let id = BufferId { raw: ctx.next_handle };
        let created = ctx.allocate(1).record(seq![CommandView::CreateBuffer { buffer: id }]);
        if data.len() > 0 {
            created.record(upload_commands(BufferTarget::Array, id, Usage::Static, flatten(data)))
        } else {
            created
        }
    }

    /// Creates a new empty instance buffer.
    pub fn new(ctx: &mut Context) -> (buffer: Result<Self, Error>)
        ensures
            old(ctx)@.remaining() == 0 ==> buffer == Err::<Self, Error>(
                Error::ResourceCreationFailed,
            ) && final(ctx)@ == old(ctx)@,
            old(ctx)@.remaining() > 0 ==> buffer is Ok && buffer->Ok_0@ == (InstanceBufferView {
                id: BufferId { raw: old(ctx)@.next_handle },
                attribute_count: 0,
                usage: None,
            }) && final(ctx)@ == Self::created_with(old(ctx)@, Seq::empty()),
    {
        match ctx.create_buffer() {
            Ok(id) => {
                assert(0 * T::size_spec() == 0) by (nonlinear_arith);
                Ok(Self { id, attribute_count: 0, usage: None, _dummy: PhantomData })
            },
            Err(e) => Err(e),
        }
    }

    /// Creates a new instance buffer and fills it with the given data. Data
    /// of more words than the device can be told of is refused like a buffer
    /// that cannot be created.
    pub fn new_with_data(ctx: &mut Context, data: &[T]) -> (buffer: Result<Self, Error>)
        ensures
            !fits_device(data@.len(), T::size_spec()) || old(ctx)@.remaining() == 0 ==> buffer
                == Err::<Self, Error>(Error::ResourceCreationFailed) && final(ctx)@ == old(ctx)@,
            fits_device(data@.len(), T::size_spec()) && old(ctx)@.remaining() > 0 ==> buffer is Ok
                && buffer->Ok_0@ == (InstanceBufferView {
                id: BufferId { raw: old(ctx)@.next_handle },
                attribute_count: data@.len(),
                usage: if data@.len() > 0 {
                    Some(Usage::Static)
                } else {
                    None
                },
            }) && final(ctx)@ == Self::created_with(old(ctx)@, data@),
    {
        if !fits(data.len(), T::size()) {
            return Err(Error::ResourceCreationFailed);
        }
        match Self::new(ctx) {
            Ok(mut buffer) => {
                if data.len() > 0 {
                    buffer.fill(ctx, data);
                }
                Ok(buffer)
            },
            Err(e) => Err(e),
        }
    }

    /// Fills the instance buffer with the given data.
    ///
    /// The first fill of a buffer is uploaded as static data, every later
    /// one as dynamic data.
    pub fn fill(&mut self, ctx: &mut Context, data: &[T])
        requires
            fits_device(data@.len(), T::size_spec()),
        ensures
            final(self)@ == old(self)@.filled(data@.len()),
            final(ctx)@ == old(ctx)@.record(
                upload_commands(
                    BufferTarget::Array,
                    old(self)@.id,
                    next_usage(old(self)@.usage),
                    flatten(data@),
                ),
            ),
    {
        let usage = if self.usage.is_none() {
            Usage::Static
        } else {
            Usage::Dynamic
        };
        let words = flatten_words(data);
        upload(ctx, BufferTarget::Array, self.id, usage, words);
        let size = T::size();
        assert(data@.len() <= u32::MAX) by (nonlinear_arith)
            requires
                data@.len() * size <= u32::MAX,
                1 <= size,
        ;
        self.attribute_count = data.len() as u32;
        self.usage = Some(usage);
    }

    /// Creates a new instance buffer and fills it with the given data.
    pub fn new_with_static(ctx: &mut Context, data: &[T]) -> (buffer: Result<Self, Error>)
        ensures
            !fits_device(data@.len(), T::size_spec()) || old(ctx)@.remaining() == 0 ==> buffer
                == Err::<Self, Error>(Error::ResourceCreationFailed) && final(ctx)@ == old(ctx)@,
            fits_device(data@.len(), T::size_spec()) && old(ctx)@.remaining() > 0 ==> buffer is Ok
                && buffer->Ok_0@ == (InstanceBufferView {
                id: BufferId { raw: old(ctx)@.next_handle },
                attribute_count: data@.len(),
                usage: if data@.len() > 0 {
                    Some(Usage::Static)
                } else {
                    None
                },
            }) && final(ctx)@ == Self::created_with(old(ctx)@, data@),
    {
        Self::new_with_data(ctx, data)
    }
    /// Fills the instance buffer with the given data.
    pub fn fill_with_static(&mut self, ctx: &mut Context, data: &[T])
        requires
            fits_device(data@.len(), T::size_spec()),
        ensures
            final(self)@ == old(self)@.filled(data@.len()),
            final(ctx)@ == old(ctx)@.record(
                upload_commands(
                    BufferTarget::Array,
                    old(self)@.id,
                    next_usage(old(self)@.usage),
                    flatten(data@),
                ),
            ),
    {
        self.fill(ctx, data)
    }

    /// Creates a new instance buffer and fills it with the given data.
    pub fn new_with_dynamic(ctx: &mut Context, data: &[T]) -> (buffer: Result<Self, Error>)
        ensures
            !fits_device(data@.len(), T::size_spec()) || old(ctx)@.remaining() == 0 ==> buffer
                == Err::<Self, Error>(Error::ResourceCreationFailed) && final(ctx)@ == old(ctx)@,
            fits_device(data@.len(), T::size_spec()) && old(ctx)@.remaining() > 0 ==> buffer is Ok
                && buffer->Ok_0@ == (InstanceBufferView {
                id: BufferId { raw: old(ctx)@.next_handle },
                attribute_count: data@.len(),
                usage: if data@.len() > 0 {
                    Some(Usage::Static)
                } else {
                    None
                },
            }) && final(ctx)@ == Self::created_with(old(ctx)@, data@),
    {
        Self::new_with_data(ctx, data)
    }

    /// Fills the instance buffer with the given data.
    pub fn fill_with_dynamic(&mut self, ctx: &mut Context, data: &[T])
        requires
            fits_device(data@.len(), T::size_spec()),
        ensures
            final(self)@ == old(self)@.filled(data@.len()),
            final(ctx)@ == old(ctx)@.record(
                upload_commands(
                    BufferTarget::Array,
                    old(self)@.id,
                    next_usage(old(self)@.usage),
                    flatten(data@),
                ),
            ),
    {
        self.fill(ctx, data)
    }

    /// The number of words in the buffer.
    pub fn count(&self) -> (n: u32)
        ensures
            n == self@.word_count(T::size_spec()),
    {
        proof {
            use_type_invariant(self);
        }
        self.attribute_count * T::size()
    }

    /// The number of instance attributes in the buffer.
    pub fn attribute_count(&self) -> (n: u32)
        ensures
            n == self@.attribute_count,
    {
        self.attribute_count
    }

    /// The handle of the buffer object.
    pub fn id(&self) -> (id: BufferId)
        ensures
            id == self@.id,
    {
        self.id
    }

    /// The hint of the last fill; `None` before the first.
    pub fn usage(&self) -> (usage: Option<Usage>)
        ensures
            usage == self@.usage,
    {
        self.usage
    }

    /// Binds the buffer to the array bind point. The binding lasts until the
    /// next command that binds or unbinds there.
    pub fn bind(&self, ctx: &mut Context)
        ensures
            final(ctx)@ == old(ctx)@.record(
                seq![CommandView::BindBuffer { target: BufferTarget::Array, buffer: self@.id }],
            ),
    {
        ctx.record(Command::BindBuffer { target: BufferTarget::Array, buffer: self.id });
    }

    /// Gives the buffer object back to the device. Taking the buffer by value
    /// makes this its last use.
    pub fn delete(self, ctx: &mut Context)
        ensures
            final(ctx)@ == old(ctx)@.record(seq![CommandView::DeleteBuffer { buffer: self@.id }]),
    {
        ctx.record(Command::DeleteBuffer { buffer: self.id });
    }
}

/// What a vertex or element buffer holds.
pub struct BufferView {
    pub id: BufferId,
    /// The number of words uploaded.
    pub count: nat,
}

/// The state of a context after a buffer was created in it and `words` were
/// uploaded to it through `target`.
pub open spec fn created_and_filled(ctx: ContextView, target: BufferTarget, words: Seq<u32>)
    -> ContextView {
    let id = BufferId { raw: ctx.next_handle };
    ctx.allocate(1).record(seq![CommandView::CreateBuffer { buffer: id }]).record(
        upload_commands(target, id, Usage::Static, words),
    )
}

/// A buffer of per vertex data.
pub struct VertexBuffer {
    id: BufferId,
    count: u32,
}

impl View for VertexBuffer {
    type V = BufferView;

    closed spec fn view(&self) -> BufferView {
        BufferView { id: self.id, count: self.count as nat }
    }
}

impl VertexBuffer {
    /// Creates a vertex buffer that holds `data`, uploaded as static data.
    pub fn new_with_static(ctx: &mut Context, data: &[Scalar]) -> (buffer: Result<Self, Error>)
        ensures
            !fits_device(data@.len(), 1) || old(ctx)@.remaining() == 0 ==> buffer == Err::<
                Self,
                Error,
            >(Error::ResourceCreationFailed) && final(ctx)@ == old(ctx)@,
            fits_device(data@.len(), 1) && old(ctx)@.remaining() > 0 ==> buffer is Ok
                && buffer->Ok_0@ == (BufferView {
                id: BufferId { raw: old(ctx)@.next_handle },
                count: data@.len(),
            }) && final(ctx)@ == created_and_filled(
                old(ctx)@,
                BufferTarget::Array,
                flatten(data@),
            ),
    {
        if !fits(data.len(), 1) {
            return Err(Error::ResourceCreationFailed);
        }
        match ctx.create_buffer() {
            Ok(id) => {
                upload(ctx, BufferTarget::Array, id, Usage::Static, flatten_words(data));
                Ok(VertexBuffer { id, count: data.len() as u32 })
            },
            Err(e) => Err(e),
        }
    }

    /// The number of words in the buffer.
    pub fn count(&self) -> (n: u32)
        ensures
            n == self@.count,
    {
        self.count
    }

    pub fn id(&self) -> (id: BufferId)
        ensures
            id == self@.id,
    {
        self.id
    }

    /// Gives the buffer object back to the device.
    pub fn delete(self, ctx: &mut Context)
        ensures
            final(ctx)@ == old(ctx)@.record(seq![CommandView::DeleteBuffer { buffer: self@.id }]),
    {
        ctx.record(Command::DeleteBuffer { buffer: self.id });
    }
}

/// A buffer of vertex indices.
pub struct ElementBuffer {
    id: BufferId,
    count: u32,
}

impl View for ElementBuffer {
    type V = BufferView;

    closed spec fn view(&self) -> BufferView {
        BufferView { id: self.id, count: self.count as nat }
    }
}

impl ElementBuffer {
    /// Creates an element buffer that holds the indices `data`.
    pub fn new_with_u32(ctx: &mut Context, data: &[u32]) -> (buffer: Result<Self, Error>)
        ensures
            !fits_device(data@.len(), 1) || old(ctx)@.remaining() == 0 ==> buffer == Err::<
                Self,
                Error,
            >(Error::ResourceCreationFailed) && final(ctx)@ == old(ctx)@,
            fits_device(data@.len(), 1) && old(ctx)@.remaining() > 0 ==> buffer is Ok
                && buffer->Ok_0@ == (BufferView {
                id: BufferId { raw: old(ctx)@.next_handle },
                count: data@.len(),
            }) && final(ctx)@ == created_and_filled(
                old(ctx)@,
                BufferTarget::ElementArray,
                flatten(data@),
            ),
    {
        if !fits(data.len(), 1) {
            return Err(Error::ResourceCreationFailed);
        }
        match ctx.create_buffer() {
            Ok(id) => {
                upload(ctx, BufferTarget::ElementArray, id, Usage::Static, flatten_words(data));
                Ok(ElementBuffer { id, count: data.len() as u32 })
            },
            Err(e) => Err(e),
        }
    }

    /// The number of indices in the buffer.
    pub fn count(&self) -> (n: u32)
        ensures
            n == self@.count,
    {
        self.count
    }

    pub fn id(&self) -> (id: BufferId)
        ensures
            id == self@.id,
    {
        self.id
    }

    /// Gives the buffer object back to the device.
    pub fn delete(self, ctx: &mut Context)
        ensures
            final(ctx)@ == old(ctx)@.record(seq![CommandView::DeleteBuffer { buffer: self@.id }]),
    {
        ctx.record(Command::DeleteBuffer { buffer: self.id });
    }
}

} // verus!
