pub mod config;
pub mod input_combo;
pub mod keybind;
pub mod config_serializer;
pub mod combo_round_trip;
