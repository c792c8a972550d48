//! Detection of runs of three consecutive lowercase vowels in text.
//!
//! [`detector`] holds the predicate, once for a borrowed string slice and once
//! for a borrowed `String`, with the laws that relate the two. [`split`] says
//! what it means to split a text on single spaces, and [`encoding`] where
//! those spaces are found in the bytes of the text. [`sentence`] cuts a
//! sentence into its words and keeps those that the predicate accepts.
//! [`demo`] puts sample words and a sample sentence through all of it and
//! returns the lines that report the outcome.

pub mod detector;
pub mod split;
pub mod encoding;
pub mod sentence;
pub mod demo;
