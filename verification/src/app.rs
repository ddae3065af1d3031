//! The state the parts of the signer share.

use vstd::prelude::*;
use crate::config::Config;
use crate::keys::KeyManager;
use crate::permissions::RateLimiter;

verus! {

/// Message types for communication between components
#[derive(Debug, Clone, Copy, PartialEq, Eq, Structural)]
pub enum AppMessage {
    /// Lock the application
    Lock,
    /// Unlock the application
    Unlock,
    /// Show the main window
    ShowWindow,
    /// Hide to tray
    HideToTray,
    /// Quit the application
    Quit,
}

/// Main application state
pub struct AppState {
    /// Application configuration
    pub config: Config,
    /// Key manager
    pub key_manager: KeyManager,
    /// Rate limiter for auto-approved requests
    pub rate_limiter: RateLimiter,
    /// Whether the application is currently locked
    pub is_locked: bool,
    /// Whether the main window is visible
    pub window_visible: bool,
}

impl AppState {
    /// Create a new application state: unlocked, its window shown, no keys
    /// known yet, and a limiter with the ceiling the settings name.
    pub fn new(config: Config) -> (state: AppState)
        ensures
            state.config == config,
            !state.is_locked,
            state.window_visible,
            state.key_manager@.keys@.len() == 0,
            state.key_manager@.active_key is None,
            !state.key_manager.unlocked(),
            state.rate_limiter.limit() == config.security.max_auto_approvals_per_min,
            forall|app: Seq<char>, request_type: crate::permissions::RequestType|
                state.rate_limiter.history(app, request_type) == Seq::<u64>::empty(),
    {
        let rate_limiter = RateLimiter::new(config.security.max_auto_approvals_per_min);
        AppState { config, key_manager: KeyManager::new(), rate_limiter, is_locked: false, window_visible: true }
    }

    /// Check if application is ready
    pub fn is_ready(&self) -> (ready: bool)
        ensures
            ready == !self.is_locked,
    {
        !self.is_locked
    }
}

} // verus!
