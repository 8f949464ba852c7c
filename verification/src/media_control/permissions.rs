//! Administrator checks.
use vstd::prelude::*;
use crate::media_control::errors::AppError;

verus! {

/// Guards operations so that only the administrator may perform them.
pub struct PermissionGuard {
    admin_id: i64,
}

impl PermissionGuard {
    /// The administrator's id.
    pub closed spec fn admin(&self) -> i64 {
        self.admin_id
    }

    /// A guard for the administrator `admin_id`.
    pub fn new(admin_id: i64) -> (g: Self)
        ensures
            g.admin() == admin_id,
    {
        PermissionGuard { admin_id }
    }

    /// Checks the sender of a message; a message without a sender counts as user 0.
    /// The sender's id is reinterpreted as a signed integer.
    pub fn check_message(&self, sender_id: Option<u64>) -> (r: Result<(), AppError>)
        ensures
            ({
                let uid: i64 = match sender_id {
                    Some(id) => id as i64,
                    None => 0,
                };
                &&& r is Ok <==> uid == self.admin()
                &&& r is Err ==> r == Err::<(), AppError>(AppError::PermissionDenied { user_id: uid })
            }),
    {
        let user_id: i64 = match sender_id {
            Some(id) => id as i64,
            None => 0,
        };
        self.check_user_id(user_id)
    }

    /// Checks that `user_id` is the administrator.
    pub fn check_user_id(&self, user_id: i64) -> (r: Result<(), AppError>)
        ensures
            r is Ok <==> user_id == self.admin(),
            r is Err ==> r == Err::<(), AppError>(AppError::PermissionDenied { user_id }),
    {
        if user_id == self.admin_id {
            Ok(())
        } else {
            Err(AppError::PermissionDenied { user_id })
        }
    }

    /// Whether `user_id` is the administrator.
    pub fn is_admin(&self, user_id: i64) -> (b: bool)
        ensures
            b == (user_id == self.admin()),
    {
        user_id == self.admin_id
    }
}

} // verus!
