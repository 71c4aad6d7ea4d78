//! Verified core of the mission platform back end: the rules behind sign-up,
//! login, tokens and sessions, attendance, coupons, memberships, missions,
//! achievements, rankings, social login, settings and uploads. Database
//! access and HTTP live in the application crate under `app/`; every decision
//! they take is a function of this library.

pub mod text;
pub mod number;
pub mod clock;
pub mod cookie;
pub mod jwt;
pub mod session;
pub mod auth;
pub mod oauth;
pub mod attendance;
pub mod coupon;
pub mod config;
pub mod common;
pub mod membership;
pub mod mission;
pub mod achievement;
pub mod ranking;
pub mod servicecenter;
pub mod search;
