//! Verified control core of a lawn-watering controller: valve and relay
//! states, device commands and answers, the watering state machine and its
//! watering queue, cycle bookkeeping, the message broker's subscriptions,
//! the decisions of the MQTT link with its de-duplicating message cache, the
//! handling of client requests and the database maintenance schedule.

pub mod actuator;
pub mod broker;
pub mod cache;
pub mod client;
pub mod cycle;
pub mod cycle_sync;
pub mod cycle_type;
pub mod db_maint;
pub mod devices;
pub mod engine;
pub mod errors;
pub mod first_cycle;
pub mod exec_cmds;
pub mod laws;
pub mod mqtt_link;
pub mod ptr_list;
pub mod rega;
pub mod run_plan;
pub mod sector_queue;
pub mod states;
pub mod std_cycles;
pub mod shelly_topic;
pub mod stress;
pub mod subscriber;
pub mod valve;
pub mod valve_state;
