use dust::buffer::{fits, flatten_words, ElementBuffer, InstanceBuffer, VertexBuffer};
use dust::context::{BufferId, BufferTarget, Command, Context, Usage};
use dust::error::Error;
use dust::math::{Scalar, Vec2, Vec3, Vec4};

fn s(x: f32) -> Scalar {
    Scalar::from_bits(x.to_bits())
}

fn upload(target: BufferTarget, raw: u64, usage: Usage, data: Vec<u32>) -> Vec<Command> {
    let buffer = BufferId { raw };
    vec![
        Command::BindBuffer { target, buffer },
        Command::BufferData { target, usage, data },
        Command::UnbindBuffer { target },
    ]
}

#[test]
fn new_buffer_is_empty_and_takes_the_next_handle() {
    let mut ctx = Context::new();
    let buffer = InstanceBuffer::<Scalar>::new(&mut ctx).unwrap();
    assert_eq!(buffer.id(), BufferId { raw: 1 });
    assert_eq!(buffer.count(), 0);
    assert_eq!(buffer.attribute_count(), 0);
    assert_eq!(buffer.usage(), None);
    assert_eq!(ctx.commands(), &vec![Command::CreateBuffer { buffer: BufferId { raw: 1 } }]);
    assert_eq!(ctx.next_handle(), 2);
}

#[test]
fn fill_then_count_is_the_length_of_the_data() {
    let mut ctx = Context::new();
    let mut buffer = InstanceBuffer::<Scalar>::new(&mut ctx).unwrap();
    let data = [s(1.0), s(2.0), s(3.0), s(4.0), s(5.0)];
    buffer.fill(&mut ctx, &data);
    assert_eq!(buffer.count() as usize, data.len());
    assert_eq!(buffer.attribute_count(), 5);
}

#[test]
fn fill_with_no_data_counts_zero_and_leaves_the_buffer_usable() {
    let mut ctx = Context::new();
    let mut buffer = InstanceBuffer::<Vec3>::new(&mut ctx).unwrap();
    buffer.fill(&mut ctx, &[]);
    assert_eq!(buffer.count(), 0);
    assert_eq!(buffer.attribute_count(), 0);
    buffer.fill(&mut ctx, &[Vec3::new(s(1.0), s(2.0), s(3.0))]);
    assert_eq!(buffer.count(), 3);
    buffer.delete(&mut ctx);
    assert_eq!(
        ctx.commands().last(),
        Some(&Command::DeleteBuffer { buffer: BufferId { raw: 1 } })
    );
}

#[test]
fn count_is_values_times_words_per_value() {
    let mut ctx = Context::new();
    let v = Vec4::new(s(1.0), s(0.0), s(0.0), s(0.0));
    let buffer = InstanceBuffer::<Vec4>::new_with_data(&mut ctx, &[v, v, v]).unwrap();
    assert_eq!(buffer.attribute_count(), 3);
    assert_eq!(buffer.count(), 12);
    let w = Vec2::new(s(1.0), s(2.0));
    let buffer = InstanceBuffer::<Vec2>::new_with_data(&mut ctx, &[w, w]).unwrap();
    assert_eq!(buffer.attribute_count(), 2);
    assert_eq!(buffer.count(), 4);
}

#[test]
fn first_fill_is_static_and_later_fills_are_dynamic() {
    let mut ctx = Context::new();
    let mut buffer = InstanceBuffer::<Scalar>::new(&mut ctx).unwrap();
    buffer.fill(&mut ctx, &[s(1.0)]);
    assert_eq!(buffer.usage(), Some(Usage::Static));
    buffer.fill(&mut ctx, &[s(2.0), s(3.0)]);
    assert_eq!(buffer.usage(), Some(Usage::Dynamic));
    buffer.fill(&mut ctx, &[s(4.0)]);
    assert_eq!(buffer.usage(), Some(Usage::Dynamic));
    let mut expected = vec![Command::CreateBuffer { buffer: BufferId { raw: 1 } }];
    expected.extend(upload(BufferTarget::Array, 1, Usage::Static, vec![1.0f32.to_bits()]));
    expected.extend(upload(
        BufferTarget::Array,
        1,
        Usage::Dynamic,
        vec![2.0f32.to_bits(), 3.0f32.to_bits()],
    ));
    expected.extend(upload(BufferTarget::Array, 1, Usage::Dynamic, vec![4.0f32.to_bits()]));
    assert_eq!(ctx.commands(), &expected);
}

#[test]
fn an_empty_first_fill_counts_as_the_first_fill() {
    let mut ctx = Context::new();
    let mut buffer = InstanceBuffer::<Scalar>::new(&mut ctx).unwrap();
    buffer.fill(&mut ctx, &[]);
    assert_eq!(buffer.usage(), Some(Usage::Static));
    buffer.fill(&mut ctx, &[s(1.0)]);
    assert_eq!(buffer.usage(), Some(Usage::Dynamic));
}

#[test]
fn new_with_data_uploads_only_where_there_is_data() {
    let mut ctx = Context::new();
    let empty = InstanceBuffer::<Scalar>::new_with_data(&mut ctx, &[]).unwrap();
    assert_eq!(empty.usage(), None);
    assert_eq!(ctx.commands().len(), 1);
    let full = InstanceBuffer::<Scalar>::new_with_data(&mut ctx, &[s(7.0)]).unwrap();
    assert_eq!(full.usage(), Some(Usage::Static));
    assert_eq!(full.id(), BufferId { raw: 2 });
    assert_eq!(full.count(), 1);
    assert_eq!(ctx.commands().len(), 5);
}

#[test]
fn the_old_constructors_and_fills_do_what_the_new_ones_do() {
    let mut ctx = Context::new();
    let data = [s(1.0), s(2.0)];
    let mut a = InstanceBuffer::<Scalar>::new_with_static(&mut ctx, &data).unwrap();
    let mut b = InstanceBuffer::<Scalar>::new_with_dynamic(&mut ctx, &data).unwrap();
    assert_eq!(a.count(), 2);
    assert_eq!(b.count(), 2);
    assert_eq!(a.usage(), Some(Usage::Static));
    assert_eq!(b.usage(), Some(Usage::Static));
    a.fill_with_static(&mut ctx, &data[..1]);
    b.fill_with_dynamic(&mut ctx, &data[..1]);
    assert_eq!(a.count(), 1);
    assert_eq!(b.count(), 1);
    assert_eq!(a.usage(), Some(Usage::Dynamic));
    assert_eq!(b.usage(), Some(Usage::Dynamic));
}

#[test]
fn bind_records_one_bind_command() {
    let mut ctx = Context::new();
    let buffer = InstanceBuffer::<Scalar>::new(&mut ctx).unwrap();
    buffer.bind(&mut ctx);
    assert_eq!(
        ctx.commands()[1],
        Command::BindBuffer { target: BufferTarget::Array, buffer: BufferId { raw: 1 } }
    );
    assert_eq!(ctx.commands().len(), 2);
}

#[test]
fn a_context_without_handles_creates_no_buffer() {
    let mut ctx = Context::starting_at(u64::MAX);
    assert_eq!(ctx.remaining(), 0);
    assert_eq!(InstanceBuffer::<Scalar>::new(&mut ctx).err(), Some(Error::ResourceCreationFailed));
    assert_eq!(
        InstanceBuffer::<Scalar>::new_with_data(&mut ctx, &[s(1.0)]).err(),
        Some(Error::ResourceCreationFailed)
    );
    assert_eq!(
        VertexBuffer::new_with_static(&mut ctx, &[s(1.0)]).err(),
        Some(Error::ResourceCreationFailed)
    );
    assert_eq!(
        ElementBuffer::new_with_u32(&mut ctx, &[1, 2, 3]).err(),
        Some(Error::ResourceCreationFailed)
    );
    assert!(ctx.commands().is_empty());
}

#[test]
fn vertex_and_element_buffers_upload_their_data_as_static() {
    let mut ctx = Context::new();
    let vertices = VertexBuffer::new_with_static(&mut ctx, &[s(0.5), s(1.5), s(2.5)]).unwrap();
    let elements = ElementBuffer::new_with_u32(&mut ctx, &[0, 1, 2, 2, 1, 0]).unwrap();
    assert_eq!(vertices.count(), 3);
    assert_eq!(elements.count(), 6);
    let mut expected = vec![Command::CreateBuffer { buffer: BufferId { raw: 1 } }];
    expected.extend(upload(
        BufferTarget::Array,
        1,
        Usage::Static,
        vec![0.5f32.to_bits(), 1.5f32.to_bits(), 2.5f32.to_bits()],
    ));
    expected.push(Command::CreateBuffer { buffer: BufferId { raw: 2 } });
    expected.extend(upload(BufferTarget::ElementArray, 2, Usage::Static, vec![0, 1, 2, 2, 1, 0]));
    assert_eq!(ctx.commands(), &expected);
    vertices.delete(&mut ctx);
    elements.delete(&mut ctx);
    assert_eq!(ctx.commands().len(), expected.len() + 2);
}

#[test]
fn flatten_words_lists_the_words_value_after_value() {
    let a = Vec3::new(s(1.0), s(2.0), s(3.0));
    let b = Vec3::new(s(4.0), s(5.0), s(6.0));
    let words = flatten_words(&[a, b]);
    let expected: Vec<u32> = [1.0f32, 2.0, 3.0, 4.0, 5.0, 6.0].iter().map(|x| x.to_bits()).collect();
    assert_eq!(words, expected);
    assert_eq!(flatten_words::<u32>(&[]), Vec::<u32>::new());
}

#[test]
fn taking_the_commands_empties_the_record_and_keeps_the_handles() {
    let mut ctx = Context::new();
    let _ = InstanceBuffer::<Scalar>::new(&mut ctx).unwrap();
    let taken = ctx.take_commands();
    assert_eq!(taken, vec![Command::CreateBuffer { buffer: BufferId { raw: 1 } }]);
    assert!(ctx.commands().is_empty());
    let next = InstanceBuffer::<Scalar>::new(&mut ctx).unwrap();
    assert_eq!(next.id(), BufferId { raw: 2 });
}

#[test]
fn data_fits_the_device_while_its_words_can_be_counted_in_32_bits() {
    assert!(fits(0, 1));
    assert!(fits(0xFFFF_FFFF, 1));
    assert!(fits(0x7FFF_FFFF, 2));
    assert!(!fits(0x8000_0000, 2));
    assert!(fits(0x5555_5555, 3));
    assert!(!fits(0x5555_5556, 3));
    assert!(fits(0x3FFF_FFFF, 4));
    assert!(!fits(0x4000_0000, 4));
    assert!(!fits(usize::MAX, 1));
    assert!(!fits(usize::MAX, 4));
}
