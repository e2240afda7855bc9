//! Notifications: a levelled message, what a view shows of it, and the
//! settings of the view.

pub mod context;
pub mod model;
pub mod view;

pub use self::context::{NotificationViewData, Notifications};
pub use self::model::{Notification, NotificationLevel};
pub use self::view::NotificationView;
