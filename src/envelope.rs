use vstd::prelude::*;

verus! {

/// What an envelope says, over mathematical values.
pub struct EnvelopeView<V> {
    pub success: bool,
    pub data: Option<V>,
    pub error: Option<Seq<char>>,
}

impl<V> EnvelopeView<V> {
    /// Exactly one of `data` and `error` is present, and `success` says which.
    pub open spec fn well_formed(self) -> bool {
        if self.success {
            self.data is Some && self.error is None
        } else {
            self.data is None && self.error is Some
        }
    }
}

/// The uniform result shape of every outward-facing operation.
pub struct ApiResponse<T> {
    pub success: bool,
    pub data: Option<T>,
    pub error: Option<String>,
}

impl<T: View> View for ApiResponse<T> {
    type V = EnvelopeView<T::V>;

    open spec fn view(&self) -> EnvelopeView<T::V> {
        EnvelopeView {
            success: self.success,
            data: match self.data {
                Some(d) => Some(d@),
                None => None,
            },
            error: match self.error {
                Some(e) => Some(e@),
                None => None,
            },
        }
    }
}

impl<T> ApiResponse<T> {
    /// Exactly one of `data` and `error` is present, and `success` says which.
    pub open spec fn well_formed(&self) -> bool {
        if self.success {
            self.data is Some && self.error is None
        } else {
            self.data is None && self.error is Some
        }
    }

    /// A success envelope carrying `data`.
    pub fn ok(data: T) -> (r: Self)
        ensures
            r.success,
            r.data == Some(data),
            r.error is None,
            r.well_formed(),
    {
        ApiResponse { success: true, data: Some(data), error: None }
    }

    /// A failure envelope carrying the message `message`.
    pub fn fail(message: String) -> (r: Self)
        ensures
            !r.success,
            r.data is None,
            r.error == Some(message),
            r.well_formed(),
    {
        ApiResponse { success: false, data: None, error: Some(message) }
    }
}

} // verus!
