//! An in-process mirror of the object graph of a PipeWire session.
//!
//! The library holds the logic of a registry daemon: it classifies raw
//! property-bag notifications into typed domain events, folds those events
//! into an in-memory registry (append-only collections of nodes, devices,
//! applications and links, and an upserted, ordered collection of ports),
//! answers queries over that registry, and builds the commands and wire
//! records that the surrounding process sends out.  Everything here is
//! plain data in and plain data out; the native session connection, the
//! channels and the RPC transport live outside the library.

pub mod decimal;
pub mod grpc_services;
pub mod pipewire_event_consumer;
pub mod pipewire_factory;
pub mod pipewire_loop;
pub mod pipewire_registry;
pub mod props;
