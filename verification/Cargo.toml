[package]
name = "cetkaik_full_state_transition"
version = "1.0.0"
edition = "2021"
publish = false

[dependencies]
cetkaik_fundamental = "*"
cetkaik_traits = "*"
cetkaik_calculate_hand = "*"
cetkaik_yhuap_move_candidates = "*"
cetkaik_naive_representation = "*"
cetkaik_compact_representation = "*"
cetkaik_core = "*"
rand = "0.8"
readonly = "0.2"
serde = { version = "1", features = ["derive"] }
