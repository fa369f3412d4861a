use vstd::prelude::*;

verus! {

/// An error meant to be shown to the user as it is.
#[derive(Debug)]
pub struct AppError {
    message: String,
}

impl View for AppError {
    type V = Seq<char>;

    /// The text shown to the user.
    open spec fn view(&self) -> Seq<char> {
        self.message_view()
    }
}

impl AppError {
    /// The message carried by this error.
    pub closed spec fn message_view(&self) -> Seq<char> {
        self.message@
    }

    /// Creates an error that carries `message` unchanged.
    pub fn user(message: &str) -> (e: AppError)
        ensures
            e@ == message@,
    {
        AppError { message: String::from_str(message) }
    }

    /// The message carried by this error.
    pub fn message(&self) -> (m: &str)
        ensures
            m@ == self@,
    {
        self.message.as_str()
    }

    /// The message carried by this error, as an owned string.
    pub fn to_message_string(&self) -> (m: String)
        ensures
            m@ == self@,
    {
        self.message.clone()
    }
}

} // verus!
