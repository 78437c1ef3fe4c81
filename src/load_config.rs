//! Configuration of the service, and the checks made on it once it is loaded.
//!
//! Reading configuration files, the environment and the command line happens around the
//! library; these types carry what was read, and the functions here decide what it means.
use vstd::prelude::*;

verus! {

/// Command line configuration options for the Pub Sub service. Options that are set override
/// the values of the configuration files.
pub struct CmdConfigOptions {
    /// The IP address and port number that the Pub Sub service listens on for requests.
    pub pub_sub_authority: Option<String>,
    /// The URI of the messaging service used to facilitate publish and subscribe functionality.
    pub messaging_uri: Option<String>,
    /// The URI that the Chariott service listens on for requests.
    pub chariott_uri: Option<String>,
    /// The namespace of the Pub Sub service.
    pub namespace: Option<String>,
    /// The name of the Pub Sub service.
    pub name: Option<String>,
    /// The current version of the Pub Sub Service.
    pub version: Option<String>,
    /// The log level of the program.
    pub log_level: String,
}

/// Constants used for establishing connection between services.
pub struct CommunicationConstants {
    /// The message published on a topic just before it is deleted.
    pub topic_deletion_message: String,
    /// String constant for gRPC.
    pub grpc_kind: String,
    /// String constant for MQTT v5.
    pub mqtt_v5_kind: String,
    /// The reference API marker for the Pub Sub service.
    pub pub_sub_reference: String,
    /// Interval for attempting to retry finding a service.
    pub retry_interval_secs: u64,
}

/// Configuration settings to run the Pub Sub service.
pub struct Settings {
    /// The IP address and port number that the Pub Sub service listens on for requests.
    pub pub_sub_authority: String,
    /// The URI of the messaging service used to facilitate publish and subscribe functionality.
    pub messaging_uri: String,
    /// The URI that the Chariott service listens on for requests.
    pub chariott_uri: Option<String>,
    /// The namespace of the Pub Sub service.
    pub namespace: Option<String>,
    /// The name of the Pub Sub service.
    pub name: Option<String>,
    /// The current version of the Pub Sub Service.
    pub version: Option<String>,
}

/// The information that identifies the service to a service registry.
pub struct ServiceIdentifier {
    /// The namespace that the service is under.
    pub namespace: String,
    /// The name of the service.
    pub name: String,
    /// The version of the service.
    pub version: String,
}

/// Why loaded settings cannot be used.
#[derive(Debug, Clone, Copy, PartialEq, Eq, Structural)]
pub enum SettingsError {
    /// A service registry is configured but the service's namespace is not.
    NamespaceNotSet,
    /// A service registry is configured but the service's name is not.
    NameNotSet,
}

impl SettingsError {
    /// The error's message.
    pub fn to_string(&self) -> (r: String)
        ensures
            r@ == match self {
                SettingsError::NamespaceNotSet => "Namespace not set"@,
                SettingsError::NameNotSet => "Name not set"@,
            },
    {
        match self {
            SettingsError::NamespaceNotSet => "Namespace not set".to_string(),
            SettingsError::NameNotSet => "Name not set".to_string(),
        }
    }
}

/// Checks loaded settings and fills in what can be defaulted.
///
/// Without a service registry (`chariott_uri`) the settings are used as they are. With one,
/// the service must have a namespace and a name, in that order of checking, and a missing
/// version becomes `package_version`.
pub fn finalize_settings(settings: Settings, package_version: &String) -> (r: Result<
    Settings,
    SettingsError,
>)
    ensures
        settings.chariott_uri.is_none() ==> r == Ok::<Settings, SettingsError>(settings),
        settings.chariott_uri.is_some() && settings.namespace.is_none() ==> r == Err::<
            Settings,
            SettingsError,
        >(SettingsError::NamespaceNotSet),
        settings.chariott_uri.is_some() && settings.namespace.is_some() && settings.name.is_none()
            ==> r == Err::<Settings, SettingsError>(SettingsError::NameNotSet),
        settings.chariott_uri.is_some() && settings.namespace.is_some() && settings.name.is_some()
            ==> r == Ok::<Settings, SettingsError>(
            Settings {
                version: match settings.version {
                    Some(v) => Some(v),
                    None => Some(*package_version),
                },
                ..settings
            },
        ),
{
    if settings.chariott_uri.is_none() {
        return Ok(settings);
    }
    if settings.namespace.is_none() {
        return Err(SettingsError::NamespaceNotSet);
    }
    if settings.name.is_none() {
        return Err(SettingsError::NameNotSet);
    }
    let mut settings = settings;
    if settings.version.is_none() {
        settings.version = Some(package_version.clone());
    }
    Ok(settings)
}

impl Settings {
    /// The identifier under which the service registers itself, when a service registry is
    /// configured and the namespace, name and version are all set.
    pub fn service_identifier(&self) -> (r: Option<ServiceIdentifier>)
        ensures
            r.is_some() == (self.chariott_uri.is_some() && self.namespace.is_some()
                && self.name.is_some() && self.version.is_some()),
            r.is_some() ==> r.unwrap() == (ServiceIdentifier {
                namespace: self.namespace.unwrap(),
                name: self.name.unwrap(),
                version: self.version.unwrap(),
            }),
    {
        if self.chariott_uri.is_none() {
            return None;
        }
        match (&self.namespace, &self.name, &self.version) {
            (Some(namespace), Some(name), Some(version)) => Some(
                ServiceIdentifier {
                    namespace: namespace.clone(),
                    name: name.clone(),
                    version: version.clone(),
                },
            ),
            _ => None,
        }
    }
}

/// Where the service's configuration files live.
pub struct SvcConfigHomeMetadata {
    /// Name of the environment variable used to set the service's HOME dir.
    pub home_env_var: String,
    /// Default name for the service's HOME dir, used if `home_env_var` is not set.
    pub home_dir: String,
    /// Name of the config directory where configuration files should live.
    pub config_dir: String,
}

impl SvcConfigHomeMetadata {
    /// The configuration directory, as a list of path components.
    ///
    /// `svc_home` is the value of the environment variable `home_env_var`, if it is set, and
    /// `user_home` the user's home directory, if it is known. The directory is
    /// `svc_home/config_dir` when the variable is set, else `user_home/home_dir/config_dir`;
    /// `None` when neither is known.
    pub fn config_home_path(&self, svc_home: Option<String>, user_home: Option<String>) -> (r:
        Option<Vec<String>>)
        ensures
            match svc_home {
                Some(s) => r.is_some() && r.unwrap()@ == seq![s, self.config_dir],
                None => match user_home {
                    Some(h) => r.is_some() && r.unwrap()@ == seq![h, self.home_dir, self.config_dir],
                    None => r.is_none(),
                },
            },
    {
        match svc_home {
            Some(s) => Some(vec![s, self.config_dir.clone()]),
            None => match user_home {
                Some(h) => Some(vec![h, self.home_dir.clone(), self.config_dir.clone()]),
                None => None,
            },
        }
    }
}

} // verus!
