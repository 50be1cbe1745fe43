//! What the platform's user endpoint answers.

use vstd::prelude::*;

verus! {

/// The envelope of an answer of the platform: its data.
#[derive(Clone, Debug)]
pub struct TwitchApiResponse<T> {
    pub data: T,
}

/// A user of the platform.
#[derive(Clone, Debug)]
pub struct User {
    pub id: Vec<u8>,
    pub login: Vec<u8>,
    pub display_name: Vec<u8>,
    pub kind: Vec<u8>,
    pub broadcaster_type: Vec<u8>,
    pub description: Vec<u8>,
    pub profile_image_url: Vec<u8>,
    pub offline_image_url: Vec<u8>,
    pub created_at: Vec<u8>,
}

/// The first user of an answer; `None` where the answer names no user.
pub fn get_user(response: TwitchApiResponse<Vec<User>>) -> (out: Option<User>)
    ensures
        match out {
            Some(user) => response.data@.len() > 0 && user == response.data@[0],
            None => response.data@.len() == 0,
        },
{
    let mut data = response.data;
    if data.len() == 0 {
        None
    } else {
        Some(data.swap_remove(0))
    }
}

} // verus!
