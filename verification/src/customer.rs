//! Records and scalar values of a customer's account.

pub mod date;
pub mod percentage;
pub mod price;
pub mod service;
pub mod services;

pub use date::{Date, DateFormat};
pub use percentage::Percentage;
pub use price::Price;
pub use service::Service;
pub use services::{Data, Services};
