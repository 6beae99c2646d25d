pub mod bitboard;
pub mod bitboard_extensions;
pub mod fen;
pub mod position;
pub mod history;
pub mod chess_connector;
pub mod game;
pub mod tic_tac_toe;
pub mod bluetooth;
pub mod sync;
pub mod bridge;
pub mod text;
pub mod ota;
pub mod event;
pub mod event_manager;
pub mod requester;
pub mod game_events;
pub mod game_loop;
pub mod game_handler;
pub mod render;
pub mod json;
pub mod lichess;
pub mod esp_requester;
pub mod board_scan;
pub mod led_display;
pub mod eink;
pub mod web_form;
pub mod simulator;
pub mod request;
pub mod wifi;
