pub mod health_check;
pub mod subscriptions;

pub use self::health_check::health_check;
pub use self::subscriptions::subscribe;
pub use self::subscriptions::FormData;
