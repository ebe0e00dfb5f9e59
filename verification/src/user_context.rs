//! The signed-in user: whose data is shown, and which answers of the user lookup are kept.
//! The public user ID is derived from the private one by the caller (by SponsorBlock's
//! repeated hashing).

use vstd::prelude::*;

use crate::api::User;

verus! {

/// The signed-in user: the public user ID, and the looked-up data once it came (or the text of
/// the failure).
#[derive(Debug)]
pub struct UserContextData {
    pub user_id: String,
    pub data: Option<Result<User, String>>,
}

/// What the page knows of the signed-in user.
pub struct UserContextProvider {
    private_user_id: Option<String>,
    user_data: Option<UserContextData>,
    last_update: Option<i64>,
}

/// Two optional texts hold the same text.
pub open spec fn same_text(a: Option<String>, b: Option<String>) -> bool {
    match (a, b) {
        (Some(x), Some(y)) => x@ == y@,
        (None, None) => true,
        _ => false,
    }
}

impl UserContextProvider {
    /// The private user ID set in the settings.
    pub closed spec fn private_id(&self) -> Option<String> {
        self.private_user_id
    }

    /// The signed-in user, if any.
    pub closed spec fn user(&self) -> Option<UserContextData> {
        self.user_data
    }

    /// The time of the server's last update seen.
    pub closed spec fn last_update(&self) -> Option<i64> {
        self.last_update
    }

    /// The page as it starts: signed in when a private user ID is set, with its data not yet
    /// looked up (the caller looks up `public_user_id`).
    pub fn new(private_user_id: Option<String>, public_user_id: Option<String>, last_update: Option<i64>) -> (p: Self)
        requires
            private_user_id is Some <==> public_user_id is Some,
        ensures
            p.private_id() == private_user_id,
            p.last_update() == last_update,
            match public_user_id {
                Some(id) => p.user() matches Some(u) && u.user_id == id && u.data is None,
                None => p.user() is None,
            },
    {
        let user_data = match public_user_id {
            Some(id) => Some(UserContextData { user_id: id, data: None }),
            None => None,
        };
        UserContextProvider { private_user_id, user_data, last_update }
    }

    /// The signed-in user, if any.
    pub fn user_data(&self) -> (u: Option<&UserContextData>)
        ensures
            match u {
                Some(x) => self.user() == Some(*x),
                None => self.user() is None,
            },
    {
        match &self.user_data {
            Some(u) => Some(u),
            None => None,
        }
    }

    /// The private user ID in the settings changed to `private_user_id` (whose public ID is
    /// `public_user_id`). When it really changed, the user is replaced by the new one, not yet
    /// looked up, and `true` is returned: the caller looks it up. Otherwise nothing changes.
    pub fn user_id_update(&mut self, private_user_id: Option<String>, public_user_id: Option<String>) -> (changed: bool)
        requires
            private_user_id is Some <==> public_user_id is Some,
        ensures
            changed == !same_text(old(self).private_id(), private_user_id),
            final(self).last_update() == old(self).last_update(),
            changed ==> final(self).private_id() == private_user_id,
            changed ==> match public_user_id {
                Some(id) => final(self).user() matches Some(u) && u.user_id == id && u.data is None,
                None => final(self).user() is None,
            },
            !changed ==> final(self).private_id() == old(self).private_id() && final(self).user() == old(self).user(),
    {
        let same = match (&self.private_user_id, &private_user_id) {
            (Some(a), Some(b)) => *a == *b,
            (None, None) => true,
            _ => false,
        };
        if same {
            return false;
        }
        self.private_user_id = private_user_id;
        self.user_data = match public_user_id {
            Some(id) => Some(UserContextData { user_id: id, data: None }),
            None => None,
        };
        true
    }

    /// The lookup of `public_user_id` finished. Its result is kept only when that is still the
    /// signed-in user. Returns whether it was kept.
    pub fn lookup_finished(&mut self, public_user_id: &String, result: Result<User, String>) -> (kept: bool)
        ensures
            kept == (old(self).user() matches Some(u) && u.user_id@ == public_user_id@),
            final(self).private_id() == old(self).private_id(),
            final(self).last_update() == old(self).last_update(),
            kept ==> (final(self).user() matches Some(u) && u.user_id == old(self).user()->0.user_id && u.data == Some(result)),
            !kept ==> final(self).user() == old(self).user(),
    {
        match &mut self.user_data {
            None => false,
            Some(u) => {
                if u.user_id != *public_user_id {
                    return false;
                }
                u.data = Some(result);
                true
            },
        }
    }

    /// The server reported its last update time. A new time is recorded; the view changes
    /// only when a time had been seen before.
    pub fn status_update(&mut self, last_updated: Option<i64>) -> (changed: bool)
        ensures
            final(self).private_id() == old(self).private_id(),
            final(self).user() == old(self).user(),
            match last_updated {
                Some(t) => if old(self).last_update() != Some(t) {
                    final(self).last_update() == Some(t) && changed == (old(self).last_update() is Some)
                } else {
                    final(self).last_update() == old(self).last_update() && !changed
                },
                None => final(self).last_update() == old(self).last_update() && !changed,
            },
    {
        match last_updated {
            Some(t) => {
                let differs = match self.last_update {
                    Some(v) => v != t,
                    None => true,
                };
                if differs {
                    let had = self.last_update.is_some();
                    self.last_update = Some(t);
                    had
                } else {
                    false
                }
            },
            None => false,
        }
    }
}

} // verus!
