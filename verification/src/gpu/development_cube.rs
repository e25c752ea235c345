pub mod mouse_drag_rotation;
