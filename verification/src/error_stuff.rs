use vstd::prelude::*;

verus! {

/// An error that the database reported.
#[derive(Debug)]
pub enum DbError {
    /// The library's own code found the database in a state it did not expect.
    BadCode(String),
    /// The database refused or failed a request; this is its message.
    Database(String),
}

impl Clone for DbError {
    fn clone(&self) -> (r: Self)
        ensures
            r == *self,
    {
        match self {
            DbError::BadCode(s) => DbError::BadCode(s.clone()),
            DbError::Database(s) => DbError::Database(s.clone()),
        }
    }
}

/// What went wrong.
#[derive(Debug)]
pub enum ErrorDetail {
    Db(DbError),
    Col(String),
}

impl Clone for ErrorDetail {
    fn clone(&self) -> (r: Self)
        ensures
            r == *self,
    {
        match self {
            ErrorDetail::Db(e) => ErrorDetail::Db(e.clone()),
            ErrorDetail::Col(s) => ErrorDetail::Col(s.clone()),
        }
    }
}

pub trait IntoErrorDetail {
    fn into_detail(self) -> ErrorDetail;
}

impl IntoErrorDetail for DbError {
    fn into_detail(self) -> (d: ErrorDetail)
        ensures
            d == ErrorDetail::Db(self),
    {
        ErrorDetail::Db(self)
    }
}

impl IntoErrorDetail for String {
    fn into_detail(self) -> (d: ErrorDetail)
        ensures
            d == ErrorDetail::Col(self),
    {
        ErrorDetail::Col(self)
    }
}

impl IntoErrorDetail for &str {
    fn into_detail(self) -> (d: ErrorDetail)
        ensures
            d matches ErrorDetail::Col(s) && s@ == self@,
    {
        ErrorDetail::Col(self.to_string())
    }
}

/// An error together with the screen and the place where it happened.
#[derive(Debug)]
pub struct AppError {
    pub detail: ErrorDetail,
    pub screen: String,
    pub location: String,
}

impl Clone for AppError {
    fn clone(&self) -> (r: Self)
        ensures
            r == *self,
    {
        AppError {
            detail: self.detail.clone(),
            screen: self.screen.clone(),
            location: self.location.clone(),
        }
    }
}

/// Whether the app is disabled, and the error that disabled it.
pub struct ErrorState {
    pub disabled: bool,
    pub error: Option<AppError>,
}

impl ErrorState {
    pub fn new() -> (s: Self)
        ensures
            !s.disabled,
            s.error is None,
    {
        ErrorState { disabled: false, error: None }
    }
}

/// The state after `disable`.
pub open spec fn disabled_state(s: ErrorState) -> ErrorState {
    ErrorState { disabled: true, error: s.error }
}

/// The state after `enable`.
pub open spec fn enabled_state(s: ErrorState) -> ErrorState {
    ErrorState { disabled: false, error: None }
}

/// The state after `report_error`.
pub open spec fn reported_state(s: ErrorState, error: AppError) -> ErrorState {
    ErrorState { disabled: true, error: Some(error) }
}

pub fn is_disabled(state: &ErrorState) -> (b: bool)
    ensures
        b == state.disabled,
{
    state.disabled
}

/// Disables the app; the recorded error, if any, stays.
pub fn disable(state: &mut ErrorState)
    ensures
        *final(state) == disabled_state(*old(state)),
{
    state.disabled = true;
}

/// Enables the app again and forgets the recorded error.
pub fn enable(state: &mut ErrorState)
    ensures
        *final(state) == enabled_state(*old(state)),
{
    state.disabled = false;
    state.error = None;
}

/// Records the error and disables the app.
pub fn report_error(state: &mut ErrorState, error: AppError)
    ensures
        *final(state) == reported_state(*old(state), error),
{
    state.error = Some(error);
    disable(state);
}

pub fn current_error(state: &ErrorState) -> (e: Option<AppError>)
    ensures
        e == state.error,
{
    match &state.error {
        Some(e) => Some(e.clone()),
        None => None,
    }
}

/// A reported error disables the app and is the one shown; a later report
/// replaces it; disabling again keeps it; enabling forgets every report.
pub proof fn law_report_disable_enable(s: ErrorState, e1: AppError, e2: AppError)
    ensures
        reported_state(s, e1).disabled,
        reported_state(s, e1).error == Some(e1),
        reported_state(reported_state(s, e1), e2) == reported_state(s, e2),
        disabled_state(reported_state(s, e1)) == reported_state(s, e1),
        enabled_state(reported_state(s, e1)) == enabled_state(s),
        !enabled_state(s).disabled && enabled_state(s).error is None,
{
}

} // verus!
