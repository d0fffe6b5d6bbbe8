pub mod dispatch;
pub mod gigachat;
pub mod strings;
pub mod telegram;
