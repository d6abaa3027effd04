//! Market-data ingestion and local order-book reconstruction.

pub mod adapter;
pub mod audio;
pub mod chart;
pub mod depth;
pub mod kline_stream;
pub mod limiter;
pub mod market;
pub mod price;
pub mod qty;
pub mod rest;
pub mod screen;
pub mod stream;
pub mod text;
pub mod toast;
