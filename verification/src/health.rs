//! The health report that the monitoring endpoint serves.

use vstd::prelude::*;

verus! {

/// Health check response.
#[derive(Debug, Clone)]
pub struct HealthResponse {
    /// Overall bot status: `healthy` while running, `stopped` otherwise.
    pub status: String,
    /// Whether the bot is running.
    pub is_running: bool,
    /// Last update timestamp (Unix milliseconds).
    pub last_update_ms: i64,
    /// Number of active positions.
    pub active_positions: usize,
    /// Number of pending orders.
    pub pending_orders: usize,
    /// Number of subscribed symbols (not tracked yet: always 0).
    pub subscribed_symbols: usize,
    /// WebSocket connection status (taken to follow the running flag).
    pub websocket_connected: bool,
}

impl HealthResponse {
    /// The report for a bot in the given state.
    pub fn from_state(
        is_running: bool,
        last_update_ms: i64,
        active_positions: usize,
        pending_orders: usize,
    ) -> (r: HealthResponse)
        ensures
            r.status@ == (if is_running {
                "healthy"@
            } else {
                "stopped"@
            }),
            r.is_running == is_running,
            r.last_update_ms == last_update_ms,
            r.active_positions == active_positions,
            r.pending_orders == pending_orders,
            r.subscribed_symbols == 0,
            r.websocket_connected == is_running,
    {
        let status = if is_running {
            "healthy".to_owned()
        } else {
            "stopped".to_owned()
        };
        HealthResponse {
            status,
            is_running,
            last_update_ms,
            active_positions,
            pending_orders,
            subscribed_symbols: 0,
            websocket_connected: is_running,
        }
    }
}

} // verus!
