//! The configuration of the worker.

use vstd::prelude::*;

verus! {

/// Where the engine is found, how to log in, how often to poll, under which
/// id to work and for how long to lock a task.
#[derive(Debug)]
pub struct ConfigParams {
    url: String,
    username: String,
    password: String,
    poll_interval: usize,
    id: String,
    lock_duration: u64,
}

/// The model of [`ConfigParams`].
pub struct ConfigModel {
    pub url: Seq<char>,
    pub username: Seq<char>,
    pub password: Seq<char>,
    pub poll_interval: usize,
    pub id: Seq<char>,
    pub lock_duration: u64,
}

impl View for ConfigParams {
    type V = ConfigModel;

    closed spec fn view(&self) -> ConfigModel {
        ConfigModel {
            url: self.url@,
            username: self.username@,
            password: self.password@,
            poll_interval: self.poll_interval,
            id: self.id@,
            lock_duration: self.lock_duration,
        }
    }
}

/// The configuration that holds where nothing else is set.
pub open spec fn default_config() -> ConfigModel {
    ConfigModel {
        url: "http://localhost:8080"@,
        username: Seq::empty(),
        password: Seq::empty(),
        poll_interval: 500,
        id: "operaton_task_worker"@,
        lock_duration: 60_000,
    }
}

/// The address of an engine on this machine.
pub fn default_url() -> (url: String)
    ensures
        url@ == "http://localhost:8080"@,
{
    "http://localhost:8080".to_owned()
}

/// The default poll interval in milliseconds.
pub fn default_poll_interval() -> (millis: usize)
    ensures
        millis == 500,
{
    500
}

/// The id under which the worker works by default.
pub fn default_task_worker_id() -> (id: String)
    ensures
        id@ == "operaton_task_worker"@,
{
    "operaton_task_worker".to_owned()
}

/// The default lock duration in milliseconds.
pub fn default_lock_duration() -> (millis: u64)
    ensures
        millis == 60_000,
{
    60_000
}

impl Default for ConfigParams {
    fn default() -> (config: Self)
        ensures
            config@ == default_config(),
    {
        ConfigParams {
            url: default_url(),
            username: String::new(),
            password: String::new(),
            poll_interval: default_poll_interval(),
            id: default_task_worker_id(),
            lock_duration: default_lock_duration(),
        }
    }
}

impl Clone for ConfigParams {
    fn clone(&self) -> (copy: Self)
        ensures
            copy@ == self@,
    {
        ConfigParams {
            url: self.url.clone(),
            username: self.username.clone(),
            password: self.password.clone(),
            poll_interval: self.poll_interval,
            id: self.id.clone(),
            lock_duration: self.lock_duration,
        }
    }
}

impl ConfigParams {
    /// The address of the engine.
    pub fn url(&self) -> (url: &str)
        ensures
            url@ == self@.url,
    {
        self.url.as_str()
    }

    /// The name to log in with; empty where the worker does not log in.
    pub fn username(&self) -> (username: &str)
        ensures
            username@ == self@.username,
    {
        self.username.as_str()
    }

    /// The password to log in with.
    pub fn password(&self) -> (password: &str)
        ensures
            password@ == self@.password,
    {
        self.password.as_str()
    }

    /// The time between two polls, in milliseconds.
    pub fn poll_interval(&self) -> (millis: usize)
        ensures
            millis == self@.poll_interval,
    {
        self.poll_interval
    }

    /// The id under which the worker locks tasks.
    pub fn id(&self) -> (id: &str)
        ensures
            id@ == self@.id,
    {
        self.id.as_str()
    }

    /// The time for which the worker locks a task, in milliseconds.
    pub fn lock_duration(&self) -> (millis: u64)
        ensures
            millis == self@.lock_duration,
    {
        self.lock_duration
    }

    /// The same configuration with another address.
    pub fn with_url(self, url: String) -> (config: Self)
        ensures
            config@ == (ConfigModel { url: url@, ..self@ }),
    {
        let mut config = self;
        config.url = url;
        config
    }

    /// The same configuration with another name and password.
    pub fn with_auth(self, username: String, password: String) -> (config: Self)
        ensures
            config@ == (ConfigModel { username: username@, password: password@, ..self@ }),
    {
        let mut config = self;
        config.username = username;
        config.password = password;
        config
    }

    /// The same configuration with another poll interval.
    pub fn with_poll_interval(self, poll_interval: usize) -> (config: Self)
        ensures
            config@ == (ConfigModel { poll_interval, ..self@ }),
    {
        let mut config = self;
        config.poll_interval = poll_interval;
        config
    }

    /// The same configuration with another worker id.
    pub fn with_worker_id(self, id: String) -> (config: Self)
        ensures
            config@ == (ConfigModel { id: id@, ..self@ }),
    {
        let mut config = self;
        config.id = id;
        config
    }

    /// The same configuration with another lock duration.
    pub fn with_lock_duration(self, lock_duration: u64) -> (config: Self)
        ensures
            config@ == (ConfigModel { lock_duration, ..self@ }),
    {
        let mut config = self;
        config.lock_duration = lock_duration;
        config
    }
}

} // verus!
