//! Statistics of a stream, as the media server reports them.

use vstd::prelude::*;
use vstd::string::*;

use crate::config::{Config, Error};

verus! {

/// What the media server reports of a stream.
#[derive(Debug)]
pub struct OmeStatisticsResponse {
    pub created_time: String,
    pub total_connections: u32,
    pub total_bytes_in: u64,
    pub total_bytes_out: u64,
}

/// The report as the media server wraps it.
#[derive(Debug)]
pub struct OmeStatistics {
    pub response: OmeStatisticsResponse,
}

/// The request for the statistics of a stream: a GET of the URL with one header.
#[derive(Debug)]
pub struct StatisticsRequest {
    pub url: String,
    pub header: String,
    pub value: String,
}

/// How the request went.
#[derive(Debug)]
pub enum StatisticsReply {
    /// The media server sent a report.
    Report(OmeStatistics),
    /// The call failed, or was answered with an error.
    Failed,
    /// What was sent is no report.
    Unreadable,
}

/// Where the media server reports on the stream.
pub open spec fn statistics_url(api_host: Seq<char>, stream: Seq<char>) -> Seq<char> {
    api_host + "/v1/stats/current/vhosts/default/apps/app/streams/"@ + stream
}

/// The request for the statistics of a stream.
pub fn statistics_request(config: &Config, stream: &str) -> (request: StatisticsRequest)
    ensures
        request.url@ == statistics_url(config.ome_api_host@, stream@),
        request.header@ == "Authorization"@,
        request.value@ == config.ome_api_credentials@,
{
    let mut url: String = config.ome_api_host.clone();
    url.append("/v1/stats/current/vhosts/default/apps/app/streams/");
    url.append(stream);
    StatisticsRequest {
        url,
        header: "Authorization".to_owned(),
        value: config.ome_api_credentials.clone(),
    }
}

/// The statistics in the media server's reply. Whatever went wrong is an internal error.
pub fn ome_statistics(reply: StatisticsReply) -> (statistics: Result<OmeStatisticsResponse, Error>)
    ensures
        statistics == match reply {
            StatisticsReply::Report(report) => Ok::<OmeStatisticsResponse, Error>(report.response),
            StatisticsReply::Failed => Err::<OmeStatisticsResponse, Error>(Error::InternalError),
            StatisticsReply::Unreadable => Err::<OmeStatisticsResponse, Error>(
                Error::InternalError,
            ),
        },
{
    match reply {
        StatisticsReply::Report(report) => Ok(report.response),
        StatisticsReply::Failed => Err(Error::InternalError),
        StatisticsReply::Unreadable => Err(Error::InternalError),
    }
}

} // verus!
