use bgfx::UsageError;
use bgfx::handles::INVALID_HANDLE_IDX;
use bgfx::handles::IndexBufferHandle;
use bgfx::handles::ProgramHandle;
use bgfx::handles::VertexBufferHandle;
use bgfx::input::MouseButton;
use bgfx::input::MouseState;
use bgfx::input::Timer;
use bgfx::session::BGFX_STATE_DEPTH_TEST_LESS;
use bgfx::session::BGFX_STATE_WRITE_R;
use bgfx::session::BGFX_STATE_WRITE_Z;
use bgfx::session::Session;
use bgfx::session::SessionState;

fn ready_session() -> Session {
    let mut s = Session::new();
    s.init(800, 600).unwrap();
    s
}

#[test]
fn shutdown_without_init_is_a_usage_error() {
    let mut s = Session::new();
    assert_eq!(s.shutdown(), Err(UsageError::NotInitialized));
    assert!(matches!(s.state(), SessionState::Uninitialized));
}

#[test]
fn double_init_is_rejected() {
    let mut s = ready_session();
    assert_eq!(s.init(1024, 768), Err(UsageError::AlreadyInitialized));
}

#[test]
fn init_after_shutdown_starts_a_fresh_lifetime() {
    let mut s = ready_session();
    s.shutdown().unwrap();
    assert!(matches!(s.state(), SessionState::Terminated));
    assert_eq!(s.init(640, 480), Ok(()));
    assert!(matches!(s.state(), SessionState::Ready));
    assert_eq!(s.frames_completed(), 0);
}

#[test]
fn calls_before_init_are_rejected() {
    let mut s = Session::new();
    assert_eq!(s.touch(0), Err(UsageError::NotInitialized));
    assert_eq!(s.set_view_rect(0, 0, 0, 800, 600), Err(UsageError::NotInitialized));
    assert_eq!(s.set_state(BGFX_STATE_WRITE_R), Err(UsageError::NotInitialized));
    assert!(s.frame().is_err());
    assert!(s.register_vertex_buffer(1).is_err());
}

#[test]
fn failed_creation_yields_a_handle_every_use_rejects() {
    let mut s = ready_session();
    let h = s.register_vertex_buffer(INVALID_HANDLE_IDX).unwrap();
    assert!(!h.is_valid());
    assert_eq!(s.set_vertex_buffer(0, &h), Err(UsageError::InvalidHandle));

    let ib = s.register_index_buffer(INVALID_HANDLE_IDX).unwrap();
    assert!(!ib.is_valid());
    assert_eq!(s.set_index_buffer(&ib), Err(UsageError::InvalidHandle));

    let p = s.register_program(INVALID_HANDLE_IDX).unwrap();
    assert!(!p.is_valid());
    assert_eq!(s.submit(0, &p), Err(UsageError::InvalidHandle));
    assert_eq!(s.draw_count(), 0);
}

#[test]
fn an_unregistered_handle_is_rejected() {
    let mut s = ready_session();
    let stray_vb = VertexBufferHandle::from_raw(5);
    assert!(stray_vb.is_valid());
    assert_eq!(s.set_vertex_buffer(0, &stray_vb), Err(UsageError::InvalidHandle));
    let stray_ib = IndexBufferHandle::from_raw(5);
    assert_eq!(s.set_index_buffer(&stray_ib), Err(UsageError::InvalidHandle));
    let stray_prog = ProgramHandle::from_raw(5);
    assert_eq!(s.submit(0, &stray_prog), Err(UsageError::InvalidHandle));
}

#[test]
fn a_registered_handle_binds() {
    let mut s = ready_session();
    let vb = s.register_vertex_buffer(3).unwrap();
    assert!(vb.is_valid());
    assert!(s.vertex_buffer_live(&vb));
    assert_eq!(s.set_vertex_buffer(0, &vb), Ok(()));
    let ib = s.register_index_buffer(4).unwrap();
    assert!(s.index_buffer_live(&ib));
    assert_eq!(s.set_index_buffer(&ib), Ok(()));
}

#[test]
fn handles_do_not_survive_shutdown() {
    let mut s = ready_session();
    let vb = s.register_vertex_buffer(3).unwrap();
    s.shutdown().unwrap();
    s.init(800, 600).unwrap();
    assert!(!s.vertex_buffer_live(&vb));
    assert_eq!(s.set_vertex_buffer(0, &vb), Err(UsageError::InvalidHandle));
}

#[test]
fn two_draws_in_one_frame_arrive_in_issue_order() {
    let mut s = ready_session();
    let vb = s.register_vertex_buffer(3).unwrap();
    let ib = s.register_index_buffer(4).unwrap();
    let prog = s.register_program(7).unwrap();

    s.set_view_rect(0, 0, 0, 800, 600).unwrap();
    s.touch(0).unwrap();

    s.set_vertex_buffer(0, &vb).unwrap();
    s.set_index_buffer(&ib).unwrap();
    s.set_state(BGFX_STATE_WRITE_R | BGFX_STATE_WRITE_Z | BGFX_STATE_DEPTH_TEST_LESS).unwrap();
    s.submit(0, &prog).unwrap();

    s.set_vertex_buffer(1, &vb).unwrap();
    s.submit(0, &prog).unwrap();

    assert_eq!(s.draw_count(), 2);
    let draws = s.frame().unwrap();
    assert_eq!(draws.len(), 2);

    assert_eq!(draws[0].view, 0);
    assert_eq!(draws[0].program, 7);
    assert_eq!(draws[0].vertex_buffer, 3);
    assert_eq!(draws[0].vertex_stream, 0);
    assert_eq!(draws[0].index_buffer, 4);
    assert_eq!(
        draws[0].state_flags,
        BGFX_STATE_WRITE_R | BGFX_STATE_WRITE_Z | BGFX_STATE_DEPTH_TEST_LESS
    );

    // the second draw was issued after submit reset the pending bindings,
    // so only its own vertex-buffer binding carries over
    assert_eq!(draws[1].vertex_buffer, 3);
    assert_eq!(draws[1].vertex_stream, 1);
    assert_eq!(draws[1].index_buffer, INVALID_HANDLE_IDX);
    assert_eq!(draws[1].state_flags, 0);

    assert_eq!(s.draw_count(), 0);
    assert_eq!(s.frames_completed(), 1);
    assert!(matches!(s.state(), SessionState::Ready));
}

#[test]
fn frame_without_draws_is_empty() {
    let mut s = ready_session();
    s.touch(0).unwrap();
    let draws = s.frame().unwrap();
    assert_eq!(draws.len(), 0);
    assert_eq!(s.frames_completed(), 1);
    let draws2 = s.frame().unwrap();
    assert_eq!(draws2.len(), 0);
    assert_eq!(s.frames_completed(), 2);
}

#[test]
fn handle_constructors_round_trip() {
    let vb = VertexBufferHandle::from_raw(42);
    assert_eq!(vb.raw(), 42);
    assert!(vb.is_valid());
    assert!(!VertexBufferHandle::invalid().is_valid());
    assert!(!IndexBufferHandle::invalid().is_valid());
    assert!(!ProgramHandle::invalid().is_valid());
    assert_eq!(ProgramHandle::invalid().raw(), INVALID_HANDLE_IDX);
}

#[test]
fn mouse_state_starts_cleared() {
    let m = MouseState::new();
    assert_eq!(m.mx, 0);
    assert_eq!(m.my, 0);
    assert_eq!(m.mz, 0);
    for b in m.m_buttons.iter() {
        assert!(matches!(b, MouseButton::NoButton));
    }
}

#[test]
fn timer_counts_elapsed_ticks() {
    let t = Timer::new(1000);
    assert_eq!(t.elapsed_ticks(1000), 0);
    assert_eq!(t.elapsed_ticks(3500), 2500);
    assert_eq!(t.elapsed_ticks(500), -500);
}
