//! The address structures of the C socket interface, as plain data.

#![allow(nonstandard_style)]

use vstd::prelude::*;

verus! {

pub const AF_INET: u8 = 0;

pub const AF_INET6: u8 = 1;

pub type sa_family_t = u8;

#[derive(Copy, Clone, Debug, PartialEq, Eq)]
pub struct in_addr {
    pub s_addr: u32,
}

#[derive(Copy, Clone, Debug, PartialEq, Eq)]
pub struct sockaddr_in {
    pub sin_family: sa_family_t,
    pub sin_port: u16,
    pub sin_addr: in_addr,
}

#[derive(Copy, Clone, Debug, PartialEq, Eq)]
pub struct in6_addr {
    pub s6_addr: [u8; 16],
}

#[derive(Copy, Clone, Debug, PartialEq, Eq)]
pub struct sockaddr_in6 {
    pub sin6_family: sa_family_t,
    pub sin6_port: u16,
    pub sin6_addr: in6_addr,
    pub sin6_flowinfo: u32,
    pub sin6_scope_id: u32,
}

#[derive(Copy, Clone, Debug, PartialEq, Eq)]
pub struct sockaddr {}

pub type socklen_t = usize;

} // verus!
