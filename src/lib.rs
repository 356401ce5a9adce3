//! Classic object-oriented design patterns, each a small self-contained
//! module with verified contracts: a rate-limiting proxy, an adapter, a
//! bridge, a builder, a chain of responsibility, commands, a composite, a
//! facade, an abstract factory, a mediator, a state machine and a visitor.
use vstd::prelude::*;

pub mod adapter;
pub mod bridge;
pub mod builder;
pub mod chain;
pub mod command;
pub mod composition;
pub mod facade;
pub mod factory_method;
pub mod mediator;
pub mod player;
pub mod proxy;
pub mod state;
pub mod text;
pub mod visitor;

verus! {

} // verus!
