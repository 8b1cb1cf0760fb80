//! Application errors.

use vstd::prelude::*;

verus! {

/// What went wrong, with a description.
#[derive(Clone, Debug)]
pub enum AppError {
    Config(String),
    Ui(String),
    System(String),
}

impl AppError {
    /// The error as shown to the user: its kind, then its description.
    pub fn message(&self) -> (r: String)
        ensures
            r@ == (match self {
                AppError::Config(m) => "配置错误: "@ + m@,
                AppError::Ui(m) => "UI 错误: "@ + m@,
                AppError::System(m) => "系统错误: "@ + m@,
            }),
    {
        match self {
            AppError::Config(m) => {
                let mut s = String::from_str("配置错误: ");
                s.append(m.as_str());
                s
            },
            AppError::Ui(m) => {
                let mut s = String::from_str("UI 错误: ");
                s.append(m.as_str());
                s
            },
            AppError::System(m) => {
                let mut s = String::from_str("系统错误: ");
                s.append(m.as_str());
                s
            },
        }
    }
}

} // verus!
