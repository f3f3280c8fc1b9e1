use vstd::prelude::*;

verus! {

/// A required configuration value that was not supplied.
#[derive(PartialEq, Eq, Structural, Clone, Copy, Debug)]
pub enum ConfigError {
    MissingBucket,
    MissingTopicArn,
    MissingTopicName,
    MissingTable,
}

impl ConfigError {
    /// The name of the environment variable that was missing.
    pub fn variable(&self) -> (r: &'static str)
        ensures
            r@ == variable_of(*self),
    {
        match self {
            ConfigError::MissingBucket => "BUCKET_NAME",
            ConfigError::MissingTopicArn => "SNS_TOPIC_ARN",
            ConfigError::MissingTopicName => "SNS_TOPIC_NAME",
            ConfigError::MissingTable => "DYNAMO_TABLE",
        }
    }
}

pub open spec fn variable_of(e: ConfigError) -> Seq<char> {
    match e {
        ConfigError::MissingBucket => "BUCKET_NAME"@,
        ConfigError::MissingTopicArn => "SNS_TOPIC_ARN"@,
        ConfigError::MissingTopicName => "SNS_TOPIC_NAME"@,
        ConfigError::MissingTable => "DYNAMO_TABLE"@,
    }
}

/// The settings of the publish handler.
pub struct PublishConfig {
    /// Address of the notification channel.
    pub topic_arn: String,
    /// Display name of the notification channel.
    pub topic_name: String,
    /// Name of the durable table.
    pub table: String,
}

impl PublishConfig {
    /// Checks that all three settings are present, reporting the first missing
    /// one in the order address, display name, table.
    pub fn from_values(
        topic_arn: Option<String>,
        topic_name: Option<String>,
        table: Option<String>,
    ) -> (r: Result<PublishConfig, ConfigError>)
        ensures
            topic_arn is None ==> r == Err::<PublishConfig, ConfigError>(
                ConfigError::MissingTopicArn,
            ),
            topic_arn is Some && topic_name is None ==> r == Err::<PublishConfig, ConfigError>(
                ConfigError::MissingTopicName,
            ),
            topic_arn is Some && topic_name is Some && table is None ==> r == Err::<
                PublishConfig,
                ConfigError,
            >(ConfigError::MissingTable),
            r matches Ok(c) ==> {
                &&& topic_arn == Some(c.topic_arn)
                &&& topic_name == Some(c.topic_name)
                &&& table == Some(c.table)
            },
            topic_arn is Some && topic_name is Some && table is Some ==> r is Ok,
    {
        let topic_arn = match topic_arn {
            Some(v) => v,
            None => {
                return Err(ConfigError::MissingTopicArn);
            },
        };
        let topic_name = match topic_name {
            Some(v) => v,
            None => {
                return Err(ConfigError::MissingTopicName);
            },
        };
        let table = match table {
            Some(v) => v,
            None => {
                return Err(ConfigError::MissingTable);
            },
        };
        Ok(PublishConfig { topic_arn, topic_name, table })
    }
}

/// Checks that the destination bucket of the intake handler is set.
pub fn bucket_from(bucket: Option<String>) -> (r: Result<String, ConfigError>)
    ensures
        match bucket {
            Some(b) => r == Ok::<String, ConfigError>(b),
            None => r == Err::<String, ConfigError>(ConfigError::MissingBucket),
        },
{
    match bucket {
        Some(b) => Ok(b),
        None => Err(ConfigError::MissingBucket),
    }
}

} // verus!
