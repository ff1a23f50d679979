use fractal_viewer::utils::CurrentView;
use fractal_viewer::utils::Julia;
use fractal_viewer::views::mandelbrot::MandelbrotViewManager;
use fractal_viewer::views::mandelbrot_and_julia::double::DoubleViewManager;
use fractal_viewer::views::mandelbrot_and_julia::double::Side;
use fractal_viewer::views::switchable::PositionOutcome;
use fractal_viewer::views::switchable::SwitchableViewManager;
use fractal_viewer::views::switchable::ViewTarget;
use fractal_viewer::views::view::ElementState;
use fractal_viewer::views::view::FractalViewData;
use fractal_viewer::views::view::MouseButton;

#[test]
fn only_the_left_button_is_tracked() {
    let mut data = FractalViewData::new();
    assert!(!data.left_button_pressed);

    data.mouse_input(MouseButton::Left, ElementState::Pressed);
    assert!(data.left_button_pressed);

    data.mouse_input(MouseButton::Right, ElementState::Released);
    assert!(data.left_button_pressed);
    data.mouse_input(MouseButton::Other(7), ElementState::Released);
    assert!(data.left_button_pressed);

    data.mouse_input(MouseButton::Left, ElementState::Released);
    assert!(!data.left_button_pressed);
}

#[test]
fn the_first_cursor_position_seeds_the_drag_origin() {
    let mut data = FractalViewData::new();

    let first = data.new_position(false);
    assert!(first.seed_prev);
    assert!(!first.apply_pan);
    assert!(!first.emit);

    let second = data.new_position(true);
    assert!(!second.seed_prev);
    assert!(second.apply_pan);
    assert!(second.emit);
}

#[test]
fn the_views_hand_out_their_input_state() {
    let mut only = fractal_viewer::views::mandelbrot::MandelbrotOnlyView::new();
    only.data().left_button_pressed = true;
    assert!(only.data.left_button_pressed);

    let mut left = fractal_viewer::views::mandelbrot_and_julia::mandelbrot::MandelbrotDoubleView::new();
    left.data().first_drag_pos_received = true;
    assert!(left.data.first_drag_pos_received);

    let mut right = fractal_viewer::views::mandelbrot_and_julia::julia::JuliaDoubleView::new();
    assert!(!right.data().left_button_pressed);
}

#[test]
fn single_layout_honours_set_julia() {
    let manager = MandelbrotViewManager::new();
    assert_eq!(manager.set_julia(true), Some(Julia { is_julia: true }));
    assert_eq!(manager.set_julia(false), Some(Julia { is_julia: false }));
}

#[test]
fn single_layout_emits_position_only_on_active_drags() {
    let mut manager = MandelbrotViewManager::new();
    let passive = manager.new_position(false);
    assert!(!passive.emit);
    let active = manager.new_position(true);
    assert!(active.emit);
}

#[test]
fn split_layout_routes_depth_and_zoom_by_cursor_half() {
    let manager = DoubleViewManager::new();
    assert_eq!(manager.iterations(true), Side::Left);
    assert_eq!(manager.iterations(false), Side::Right);
    assert_eq!(manager.zoom(true), Side::Left);
    assert_eq!(manager.zoom(false), Side::Right);
}

#[test]
fn split_layout_ignores_set_julia() {
    let manager = DoubleViewManager::new();
    assert_eq!(manager.set_julia(true), None);
    assert_eq!(manager.set_julia(false), None);
}

#[test]
fn split_layout_sends_right_half_moves_to_the_julia_view() {
    let mut manager = DoubleViewManager::new();

    let active = manager.new_position(true, true);
    assert_eq!(active.side, Side::Right);
    assert!(active.update.seed_prev);
    assert!(active.update.emit);
    assert!(!active.seed_left_prev);
    assert!(!active.emit_generator);
    assert!(!manager.ever_had_pos);
    assert!(manager.right.data.first_drag_pos_received);
    assert!(!manager.left.data.first_drag_pos_received);

    let passive = manager.new_position(true, false);
    assert_eq!(passive.side, Side::Right);
    assert!(!passive.update.seed_prev);
    assert!(!passive.update.emit);
    assert!(!passive.emit_generator);
}

#[test]
fn passive_moves_over_the_mandelbrot_half_drive_the_generator() {
    let mut manager = DoubleViewManager::new();

    let first = manager.new_position(false, false);
    assert_eq!(first.side, Side::Left);
    assert!(first.seed_left_prev);
    assert!(first.update.seed_prev);
    assert!(!first.update.emit);
    assert!(first.emit_generator);
    assert!(manager.ever_had_pos);
    assert!(manager.left.data.first_drag_pos_received);

    let drag = manager.new_position(false, true);
    assert_eq!(drag.side, Side::Left);
    assert!(!drag.seed_left_prev);
    assert!(!drag.update.seed_prev);
    assert!(drag.update.emit);
    assert!(!drag.emit_generator);
}

#[test]
fn switchable_dispatches_by_the_current_view() {
    let single = MandelbrotViewManager::new();
    let double = DoubleViewManager::new();
    let mut manager = SwitchableViewManager::init(single, double, CurrentView::Single);
    assert_eq!(manager.current, CurrentView::Single);

    assert_eq!(manager.iterations(true), ViewTarget::Single);
    assert_eq!(manager.zoom(false), ViewTarget::Single);
    assert_eq!(manager.set_julia(true), Some(Julia { is_julia: true }));

    manager.current = CurrentView::Double;
    assert_eq!(manager.iterations(true), ViewTarget::DoubleLeft);
    assert_eq!(manager.iterations(false), ViewTarget::DoubleRight);
    assert_eq!(manager.zoom(true), ViewTarget::DoubleLeft);
    assert_eq!(manager.set_julia(true), None);
}

#[test]
fn switchable_sends_button_events_only_to_the_current_layout() {
    let single = MandelbrotViewManager::new();
    let double = DoubleViewManager::new();
    let mut manager = SwitchableViewManager::init(single, double, CurrentView::Double);

    manager.mouse_input(MouseButton::Left, ElementState::Pressed);
    assert!(manager.double.left.data.left_button_pressed);
    assert!(manager.double.right.data.left_button_pressed);
    assert!(!manager.single.view.data.left_button_pressed);

    manager.current = CurrentView::Single;
    manager.mouse_input(MouseButton::Left, ElementState::Pressed);
    assert!(manager.single.view.data.left_button_pressed);
    manager.mouse_input(MouseButton::Left, ElementState::Released);
    assert!(!manager.single.view.data.left_button_pressed);
    assert!(manager.double.left.data.left_button_pressed);
}

#[test]
fn switchable_routes_cursor_moves_to_the_current_layout() {
    let single = MandelbrotViewManager::new();
    let double = DoubleViewManager::new();
    let mut manager = SwitchableViewManager::init(single, double, CurrentView::Single);

    match manager.new_position(false, true) {
        PositionOutcome::Single(update) => {
            assert!(update.seed_prev);
            assert!(update.emit);
        },
        PositionOutcome::Double(_) => panic!("single layout must answer a cursor move"),
    }
    assert!(!manager.double.ever_had_pos);

    manager.current = CurrentView::Double;
    match manager.new_position(false, false) {
        PositionOutcome::Double(update) => {
            assert_eq!(update.side, Side::Left);
            assert!(update.emit_generator);
        },
        PositionOutcome::Single(_) => panic!("split layout must answer a cursor move"),
    }
    // The move over the split layout must not have seeded it a second time.
    assert!(manager.single.view.data.first_drag_pos_received);
    assert!(manager.double.ever_had_pos);
}
