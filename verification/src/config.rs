//! The sink's settings, which a cycle gathers from the process environment
//! before it writes anything.

use vstd::prelude::*;

verus! {

/// One of the four settings that name the sink and the place in it. The
/// order of the variants is the order in which they are asked for.
#[derive(Clone, Copy, Debug, PartialEq, Eq, Structural)]
pub enum SinkSetting {
    Url,
    Org,
    Token,
    Bucket,
}

impl SinkSetting {
    /// The name of the environment variable that holds the setting.
    pub open spec fn variable_text(self) -> Seq<char> {
        match self {
            SinkSetting::Url => "INFLUX_DB_URL"@,
            SinkSetting::Org => "INFLUX_DB_ORG"@,
            SinkSetting::Token => "INFLUX_DB_TOKEN"@,
            SinkSetting::Bucket => "INFLUX_DB_BUCKET"@,
        }
    }

    /// The name of the environment variable that holds the setting.
    pub fn variable(self) -> (name: &'static str)
        ensures
            name@ == self.variable_text(),
    {
        match self {
            SinkSetting::Url => "INFLUX_DB_URL",
            SinkSetting::Org => "INFLUX_DB_ORG",
            SinkSetting::Token => "INFLUX_DB_TOKEN",
            SinkSetting::Bucket => "INFLUX_DB_BUCKET",
        }
    }
}

/// The settings of the sink: its endpoint, the organization, the access
/// token, and the bucket that takes the records.
#[derive(Clone, Debug, PartialEq)]
pub struct SinkSettings {
    pub url: String,
    pub org: String,
    pub token: String,
    pub bucket: String,
}

/// A setting that the environment does not hold.
#[derive(Clone, Copy, Debug, PartialEq, Eq, Structural)]
pub struct MissingSetting {
    pub setting: SinkSetting,
}

impl MissingSetting {
    /// The text of the error.
    pub open spec fn message_text(self) -> Seq<char> {
        self.setting.variable_text() + " is not set"@
    }

    /// The text of the error: the variable's name and that it is not set.
    pub fn message(&self) -> (text: String)
        ensures
            text@ == self.message_text(),
    {
        let mut text = String::from_str(self.setting.variable());
        text.append(" is not set");
        text
    }
}

/// The first of the four settings that is missing, if any is.
pub open spec fn first_missing(
    url: Option<String>,
    org: Option<String>,
    token: Option<String>,
    bucket: Option<String>,
) -> Option<SinkSetting> {
    if url is None {
        Some(SinkSetting::Url)
    } else if org is None {
        Some(SinkSetting::Org)
    } else if token is None {
        Some(SinkSetting::Token)
    } else if bucket is None {
        Some(SinkSetting::Bucket)
    } else {
        None
    }
}

/// Gathers the sink's settings from what the environment holds of each. All
/// four are needed; the error names the first that is missing.
pub fn sink_settings(
    url: Option<String>,
    org: Option<String>,
    token: Option<String>,
    bucket: Option<String>,
) -> (made: Result<SinkSettings, MissingSetting>)
    ensures
        match first_missing(url, org, token, bucket) {
            Some(setting) => made == Err::<SinkSettings, MissingSetting>(
                MissingSetting { setting },
            ),
            None => made == Ok::<SinkSettings, MissingSetting>(
                SinkSettings {
                    url: url->Some_0,
                    org: org->Some_0,
                    token: token->Some_0,
                    bucket: bucket->Some_0,
                },
            ),
        },
{
    let url = match url {
        Some(url) => url,
        None => {
            return Err(MissingSetting { setting: SinkSetting::Url });
        },
    };
    let org = match org {
        Some(org) => org,
        None => {
            return Err(MissingSetting { setting: SinkSetting::Org });
        },
    };
    let token = match token {
        Some(token) => token,
        None => {
            return Err(MissingSetting { setting: SinkSetting::Token });
        },
    };
    let bucket = match bucket {
        Some(bucket) => bucket,
        None => {
            return Err(MissingSetting { setting: SinkSetting::Bucket });
        },
    };
    Ok(SinkSettings { url, org, token, bucket })
}

} // verus!
