use vstd::prelude::*;
use super::discord;

verus! {

#[derive(Clone, Debug, PartialEq)]
pub struct Ready {
    pub user: discord::User,
    pub guilds: Vec<discord::PartialGuild>,
}

} // verus!
