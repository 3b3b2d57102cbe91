//! The rows that the engine reports and the views display.

use vstd::prelude::*;

verus! {

/// One container as listed by the engine.
#[derive(Debug, Clone)]
pub struct ContainerRow {
    pub id: String,
    pub name: String,
    pub image: String,
    pub state: String,
    pub status: String,
}

impl ContainerRow {
    /// A field-by-field copy.
    pub fn duplicate(&self) -> (r: ContainerRow)
        ensures
            r == *self,
    {
        ContainerRow {
            id: self.id.clone(),
            name: self.name.clone(),
            image: self.image.clone(),
            state: self.state.clone(),
            status: self.status.clone(),
        }
    }
}

/// Resource usage of one container. The text fields are shown as the engine
/// wrote them; the numeric ones are what the history graphs plot.
#[derive(Debug, Clone)]
pub struct ContainerStats {
    pub cpu_percent: String,
    pub mem_usage: String,
    pub mem_percent: String,
    pub net_io: String,
    pub block_io: String,
    pub pids: String,
    pub gpu: String,
    /// CPU use in whole percent, rounded, never negative.
    pub cpu_percent_whole: u64,
    pub mem_usage_bytes: u64,
    pub mem_limit_bytes: u64,
    /// Memory use in whole percent, rounded, never negative.
    pub mem_percent_whole: u64,
    pub net_rx_bytes: u64,
    pub net_tx_bytes: u64,
    pub block_read_bytes: u64,
    pub block_write_bytes: u64,
    pub pids_value: u64,
}

impl ContainerStats {
    /// A field-by-field copy.
    pub fn duplicate(&self) -> (r: ContainerStats)
        ensures
            r == *self,
    {
        ContainerStats {
            cpu_percent: self.cpu_percent.clone(),
            mem_usage: self.mem_usage.clone(),
            mem_percent: self.mem_percent.clone(),
            net_io: self.net_io.clone(),
            block_io: self.block_io.clone(),
            pids: self.pids.clone(),
            gpu: self.gpu.clone(),
            cpu_percent_whole: self.cpu_percent_whole,
            mem_usage_bytes: self.mem_usage_bytes,
            mem_limit_bytes: self.mem_limit_bytes,
            mem_percent_whole: self.mem_percent_whole,
            net_rx_bytes: self.net_rx_bytes,
            net_tx_bytes: self.net_tx_bytes,
            block_read_bytes: self.block_read_bytes,
            block_write_bytes: self.block_write_bytes,
            pids_value: self.pids_value,
        }
    }
}

/// One image as listed by the engine.
#[derive(Debug, Clone)]
pub struct ImageRow {
    pub id: String,
    pub tags: String,
    pub size: String,
    pub created: String,
}

/// One volume as listed by the engine.
#[derive(Debug, Clone)]
pub struct VolumeRow {
    pub name: String,
    pub driver: String,
    pub mountpoint: String,
}

} // verus!
