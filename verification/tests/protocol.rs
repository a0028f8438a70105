use compute_shader::buffer::{BufferData, Protection};
use compute_shader::device::Device;
use compute_shader::error::Error;
use compute_shader::image::{Color, Format, Size2};
use compute_shader::instance::Instance;
use compute_shader::queue::{Binding, Submission, Uniform};
use compute_shader::sync_event::SyncEvent;

fn bound_device() -> Device {
    let mut instance = Instance::new();
    instance.create_device().unwrap()
}

#[test]
fn read_back_host_allocated_bytes() {
    // create device -> host-allocated [1,2,3,4] -> read the full range -> finish
    let mut dev = bound_device();
    let q = dev.create_queue().unwrap();
    let buf = dev
        .create_buffer(Protection::ReadOnly, BufferData::HostAllocated(vec![1, 2, 3, 4]))
        .unwrap();
    let mut dest = vec![0u8; 4];
    let no_waits: Vec<SyncEvent> = Vec::new();
    let _pe = dev.submit_read_buffer(&q, &mut dest, &buf, 0, &no_waits).unwrap();
    dev.finish(&q).unwrap();
    assert_eq!(dest, vec![1, 2, 3, 4]);
}

#[test]
fn read_back_partial_range() {
    let mut dev = bound_device();
    let q = dev.create_queue().unwrap();
    let buf = dev
        .create_buffer(Protection::ReadOnly, BufferData::HostAllocated(vec![9, 8, 7, 6, 5]))
        .unwrap();
    let mut dest = vec![0u8; 2];
    let no_waits: Vec<SyncEvent> = Vec::new();
    dev.submit_read_buffer(&q, &mut dest, &buf, 1, &no_waits).unwrap();
    assert_eq!(dest, vec![8, 7]);
}

#[test]
fn uninitialized_buffer_reports_length() {
    let mut dev = bound_device();
    let q = dev.create_queue().unwrap();
    let buf = dev.create_buffer(Protection::ReadWrite, BufferData::Uninitialized(7)).unwrap();
    assert_eq!(buf.size, 7);
    let mut dest = vec![0u8; 7];
    let no_waits: Vec<SyncEvent> = Vec::new();
    assert!(dev.submit_read_buffer(&q, &mut dest, &buf, 0, &no_waits).is_ok());
}

#[test]
fn out_of_range_read_fails() {
    let mut dev = bound_device();
    let q = dev.create_queue().unwrap();
    let buf = dev
        .create_buffer(Protection::ReadOnly, BufferData::HostAllocated(vec![1, 2, 3, 4]))
        .unwrap();
    let mut dest = vec![5u8, 5, 5];
    let no_waits: Vec<SyncEvent> = Vec::new();
    let r = dev.submit_read_buffer(&q, &mut dest, &buf, 2, &no_waits);
    assert_eq!(r.unwrap_err(), Error::Failed);
    // the failed submission changed nothing
    assert_eq!(dest, vec![5, 5, 5]);
    assert_eq!(dev.queues[q.handle].timeline.len(), 0);
}

#[test]
fn single_kernel_source_compiles_and_dispatches() {
    let mut dev = bound_device();
    let q = dev.create_queue().unwrap();
    let program = dev.create_program("kernel void k(){}").unwrap();
    let no_waits: Vec<SyncEvent> = Vec::new();
    let groups = vec![1u32, 1, 1];
    let uniforms: Vec<(u32, Uniform)> = Vec::new();
    let pe = dev.submit_compute(&q, &program, &groups, &uniforms, &no_waits);
    assert!(pe.is_ok());
}

#[test]
fn one_shot_dispatch_of_accepted_source() {
    let mut dev = bound_device();
    let q = dev.create_queue().unwrap();
    let groups = vec![8u32, 8];
    assert!(dev.create_and_dispatch_once(&q, "kernel void k(){}", &groups).is_ok());
    assert_eq!(dev.queues[q.handle].timeline.len(), 1);
}

#[test]
fn empty_source_fails_generic() {
    let mut dev = bound_device();
    assert_eq!(dev.create_program("").unwrap_err(), Error::Failed);
}

#[test]
fn two_kernel_source_fails_generic() {
    let mut dev = bound_device();
    let r = dev.create_program("kernel void a(){} kernel void b(){}");
    assert_eq!(r.unwrap_err(), Error::Failed);
}

#[test]
fn kernel_keyword_must_stand_alone() {
    let mut dev = bound_device();
    // "skernel" and "kernels" do not declare entry points; one real one does
    assert!(dev.create_program("skernel kernels kernel void k(){}").is_ok());
    // no standalone keyword at all
    assert_eq!(dev.create_program("void helper(){}").unwrap_err(), Error::Failed);
}

#[test]
fn invalid_syntax_reports_diagnostic() {
    let mut dev = bound_device();
    match dev.create_program("kernel void k(){") {
        Err(Error::CompileFailed(msg)) => {
            assert_eq!(msg.as_str(), "unbalanced braces in kernel source");
        }
        other => panic!("expected a compile diagnostic, got {:?}", other),
    }
    // closing more braces than were opened is also invalid syntax
    assert!(matches!(
        dev.create_program("kernel void k()}{"),
        Err(Error::CompileFailed(_))
    ));
}

#[test]
fn scalar_uniform_materializes_native_bytes() {
    let mut dev = bound_device();
    let q = dev.create_queue().unwrap();
    let program = dev.create_program("kernel void k(){}").unwrap();
    let no_waits: Vec<SyncEvent> = Vec::new();
    let groups = vec![4u32];
    let uniforms = vec![(0u32, Uniform::U32(42))];
    dev.submit_compute(&q, &program, &groups, &uniforms, &no_waits).unwrap();
    match &dev.queues[q.handle].timeline[0] {
        Submission::Compute { program: p, num_groups, bindings, waits } => {
            assert_eq!(*p, program.handle);
            assert_eq!(num_groups, &vec![4u32]);
            assert!(waits.is_empty());
            assert_eq!(bindings.len(), 1);
            match &bindings[0] {
                Binding::Bytes { index, bytes } => {
                    assert_eq!(*index, 0);
                    assert_eq!(bytes.as_slice(), &42u32.to_ne_bytes());
                }
                other => panic!("argument 0 should be a fresh byte buffer, got {:?}", other),
            }
        }
        other => panic!("expected a compute dispatch, got {:?}", other),
    }
}

#[test]
fn vector_uniform_materializes_sixteen_bytes() {
    let mut dev = bound_device();
    let q = dev.create_queue().unwrap();
    let program = dev.create_program("kernel void k(){}").unwrap();
    let no_waits: Vec<SyncEvent> = Vec::new();
    let groups = vec![1u32];
    let uniforms = vec![(3u32, Uniform::UVec4(1, 2, 3, 4))];
    dev.submit_compute(&q, &program, &groups, &uniforms, &no_waits).unwrap();
    match &dev.queues[q.handle].timeline[0] {
        Submission::Compute { bindings, .. } => match &bindings[0] {
            Binding::Bytes { index, bytes } => {
                assert_eq!(*index, 3);
                let mut expected = Vec::new();
                for v in [1u32, 2, 3, 4] {
                    expected.extend_from_slice(&v.to_ne_bytes());
                }
                assert_eq!(bytes, &expected);
            }
            other => panic!("argument 3 should be a fresh byte buffer, got {:?}", other),
        },
        other => panic!("expected a compute dispatch, got {:?}", other),
    }
}

#[test]
fn buffer_uniform_binds_handle() {
    let mut dev = bound_device();
    let q = dev.create_queue().unwrap();
    let program = dev.create_program("kernel void k(){}").unwrap();
    let buf = dev
        .create_buffer(Protection::ReadWrite, BufferData::HostAllocated(vec![0, 0]))
        .unwrap();
    let no_waits: Vec<SyncEvent> = Vec::new();
    let groups = vec![1u32];
    let uniforms = vec![(1u32, Uniform::Buffer(buf))];
    dev.submit_compute(&q, &program, &groups, &uniforms, &no_waits).unwrap();
    match &dev.queues[q.handle].timeline[0] {
        Submission::Compute { bindings, .. } => match &bindings[0] {
            Binding::Buffer { index, handle } => {
                assert_eq!(*index, 1);
                assert_eq!(*handle, buf.handle);
            }
            other => panic!("argument 1 should bind the buffer, got {:?}", other),
        },
        other => panic!("expected a compute dispatch, got {:?}", other),
    }
}

#[test]
fn cross_queue_wait_orders_completion() {
    // a dispatch on q2 waiting on q1's sync point does not complete before
    // q1 passes that point
    let mut dev = bound_device();
    let q1 = dev.create_queue().unwrap();
    let q2 = dev.create_queue().unwrap();
    let program = dev.create_program("kernel void k(){}").unwrap();
    let event = dev.submit_sync_event(&q1).unwrap();
    let groups = vec![1u32];
    let uniforms: Vec<(u32, Uniform)> = Vec::new();
    let waits = vec![event];
    let pe = dev.submit_compute(&q2, &program, &groups, &uniforms, &waits).unwrap();
    // q1 has not passed its sync point yet: q2 cannot finish
    assert!(!dev.sync_event_satisfied(&event));
    assert_eq!(dev.finish(&q2).unwrap_err(), Error::Failed);
    assert!(!dev.event_completed(&pe));
    // once q1 passes the sync point, q2's dispatch may complete
    dev.finish(&q1).unwrap();
    assert!(dev.sync_event_satisfied(&event));
    dev.finish(&q2).unwrap();
    assert!(dev.event_completed(&pe));
}

#[test]
fn same_queue_wait_completes_in_order() {
    let mut dev = bound_device();
    let q = dev.create_queue().unwrap();
    let program = dev.create_program("kernel void k(){}").unwrap();
    let event = dev.submit_sync_event(&q).unwrap();
    let groups = vec![1u32];
    let uniforms: Vec<(u32, Uniform)> = Vec::new();
    let waits = vec![event];
    let pe = dev.submit_compute(&q, &program, &groups, &uniforms, &waits).unwrap();
    // one finish completes the sync point first, then the dispatch behind it
    dev.finish(&q).unwrap();
    assert!(dev.event_completed(&pe));
}

#[test]
fn flush_never_blocks_or_fails() {
    let mut dev = bound_device();
    let q = dev.create_queue().unwrap();
    assert!(dev.flush(&q).is_ok());
}

#[test]
fn clear_records_image_and_color() {
    let mut dev = bound_device();
    let q = dev.create_queue().unwrap();
    let img = dev
        .create_image(Format::RGBA8, Protection::ReadWrite, Size2 { width: 16, height: 16 })
        .unwrap();
    let no_waits: Vec<SyncEvent> = Vec::new();
    dev.submit_clear(&q, &img, Color::UInt(1, 2, 3, 4), &no_waits).unwrap();
    match &dev.queues[q.handle].timeline[0] {
        Submission::Clear { image, color, waits } => {
            assert_eq!(*image, img.handle);
            assert_eq!(*color, Color::UInt(1, 2, 3, 4));
            assert!(waits.is_empty());
        }
        other => panic!("expected a clear, got {:?}", other),
    }
}

#[test]
fn destroy_each_handle_once() {
    let mut dev = bound_device();
    let q = dev.create_queue().unwrap();
    let program = dev.create_program("kernel void k(){}").unwrap();
    let buf = dev
        .create_buffer(Protection::ReadOnly, BufferData::HostAllocated(vec![1]))
        .unwrap();
    let img = dev
        .create_image(Format::R8, Protection::ReadWrite, Size2 { width: 1, height: 1 })
        .unwrap();
    let event = dev.submit_sync_event(&q).unwrap();
    let mut dest = vec![0u8; 1];
    let no_waits: Vec<SyncEvent> = Vec::new();
    let pe = dev.submit_read_buffer(&q, &mut dest, &buf, 0, &no_waits).unwrap();
    dev.finish(&q).unwrap();
    dev.destroy_profile_event(&pe);
    dev.destroy_sync_event(&event);
    dev.destroy_image(&img);
    dev.destroy_buffer(&buf);
    dev.destroy_program(&program);
    dev.destroy_queue(&q);
    dev.destroy();
}

#[test]
fn devices_of_one_instance_get_distinct_bindings() {
    let mut instance = Instance::new();
    let d1 = instance.create_device().unwrap();
    let d2 = instance.create_device().unwrap();
    assert_ne!(d1.backend, d2.backend);
}

#[test]
fn created_handles_carry_the_device_binding() {
    let mut dev = bound_device();
    let q = dev.create_queue().unwrap();
    let program = dev.create_program("kernel void k(){}").unwrap();
    let buf = dev
        .create_buffer(Protection::ReadOnly, BufferData::HostAllocated(vec![1]))
        .unwrap();
    assert_eq!(q.backend, dev.backend);
    assert_eq!(program.backend, dev.backend);
    assert_eq!(buf.backend, dev.backend);
}
