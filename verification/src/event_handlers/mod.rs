pub mod command_handler;
pub mod context_menu_handler;
pub mod focus_on_hover_handler;
pub mod keyboard_keybind_tracker;
pub mod mod_mouse_keybind_tracker;
pub mod mod_transform_handler;
pub mod mod_transform_tracker;
pub mod native_transform_handler;
pub mod resize_handle_handler;
pub mod resize_handle_tracker;
