//! Playback composition: from an established session, a station and a
//! time window, compute the playlist URL and the authorization header
//! line that the external capture sink is given, plus the small
//! judgments around the capture (output name, exit status).

use vstd::prelude::*;
use vstd::string::StringExecFns;

use crate::auth::RadikoAuthHandler;
use crate::errors::{RadikoError, ValidationFault};
use crate::headers::{spec_slot_value, HeaderSet};
use crate::timefmt::{
    add_minutes_clock, format_datetime, spec_format14, spec_plus_minutes, spec_tuple_ldt,
    LocalDateTime,
};
use crate::validate::{is_valid_station_id, spec_valid_station_id};

verus! {

/// The playlist URL for a station and a formatted time window.
pub open spec fn spec_playlist_url(station: Seq<char>, ft: Seq<char>, to: Seq<char>) -> Seq<
    char,
> {
    "https://radiko.jp/v2/api/ts/playlist.m3u8?station_id="@ + station + "&l=15&ft="@ + ft
        + "&to="@ + to
}

/// The authorization header line handed to the capture sink.
pub open spec fn spec_auth_header_line(h: HeaderSet) -> Seq<char> {
    "X-RADIKO-AUTHTOKEN: "@ + spec_slot_value(h.auth_token)
}

/// The station-directory URL for an area.
pub open spec fn spec_station_list_url(area: Seq<char>) -> Seq<char> {
    "https://radiko.jp/v3/station/list/"@ + area + ".xml"@
}

/// The capture output file name: station id, underscore, timestamp,
/// `.aac`.
pub open spec fn spec_output_name(station: Seq<char>, ts: Seq<char>) -> Seq<char> {
    station + "_"@ + ts + ".aac"@
}

/// The playback-side client: an area id and the finalized header set of
/// an established authorization session.
pub struct RadikoPlayer {
    /// The session's area id.
    pub area_id: String,
    /// The finalized headers, with the keep-alive pair added.
    pub headers: HeaderSet,
}

impl RadikoPlayer {
    /// A player always holds a session token.
    pub open spec fn wf(&self) -> bool {
        self.headers.auth_token is Some
    }

    /// A player over an established session's headers.
    pub fn new(area_id: &str, auth_handler: &RadikoAuthHandler) -> (r: RadikoPlayer)
        requires
            auth_handler.state is Established,
            auth_handler.wf(),
        ensures
            r.area_id@ == area_id@,
            r.headers.area_id == auth_handler.headers.area_id,
            r.headers.auth_token == auth_handler.headers.auth_token,
            r.headers.partial_key == auth_handler.headers.partial_key,
            r.headers.keep_alive,
            r.wf(),
    {
        let headers = Self::make_headers(auth_handler);
        RadikoPlayer { area_id: String::from_str(area_id), headers }
    }

    /// The authenticated header set for playback requests: the
    /// established session's headers plus the keep-alive pair.
    pub fn make_headers(auth_handler: &RadikoAuthHandler) -> (r: HeaderSet)
        requires
            auth_handler.state is Established,
            auth_handler.wf(),
        ensures
            r.area_id == auth_handler.headers.area_id,
            r.auth_token == auth_handler.headers.auth_token,
            r.partial_key == auth_handler.headers.partial_key,
            r.keep_alive,
    {
        let mut h = auth_handler.get_authenticated_headers();
        h.keep_alive = true;
        h
    }

    /// The directory URL for this player's area.
    pub fn station_list_url(&self) -> (r: String)
        ensures
            r@ == spec_station_list_url(self.area_id@),
    {
        let mut url = String::from_str("https://radiko.jp/v3/station/list/");
        url.append(self.area_id.as_str());
        url.append(".xml");
        proof {
            assert(url@ =~= spec_station_list_url(self.area_id@));
        }
        url
    }

    /// Computes what the capture sink is given for one recording: the
    /// playlist URL for the window `[start, start + duration)` and the
    /// authorization header line. Rejects a malformed station id or a
    /// non-positive duration before anything is computed, and a window
    /// the calendar cannot carry.
    pub fn prepare_recording(
        &self,
        station_id: &str,
        start: &LocalDateTime,
        duration_minutes: i64,
    ) -> (r: Result<(String, String), RadikoError>)
        requires
            self.wf(),
            start.wf(),
        ensures
            !spec_valid_station_id(station_id@) ==> r == Err::<(String, String), RadikoError>(
                RadikoError::Validation(ValidationFault::BadStationId),
            ),
            spec_valid_station_id(station_id@) && duration_minutes <= 0 ==> r == Err::<
                (String, String),
                RadikoError,
            >(RadikoError::Validation(ValidationFault::NonPositiveDuration)),
            spec_valid_station_id(station_id@) && duration_minutes > 0 ==> (match spec_plus_minutes(
                start.year,
                start.month,
                start.day,
                start.hour,
                start.minute,
                start.second,
                duration_minutes,
            ) {
                None => r == Err::<(String, String), RadikoError>(
                    RadikoError::Validation(ValidationFault::BadStartTime),
                ),
                Some(end) => if end.0 > 9999 {
                    r == Err::<(String, String), RadikoError>(
                        RadikoError::Validation(ValidationFault::BadStartTime),
                    )
                } else {
                    r matches Ok(plan) && plan.0@ == spec_playlist_url(
                        station_id@,
                        spec_format14(*start),
                        spec_format14(spec_tuple_ldt(end)),
                    ) && plan.1@ == spec_auth_header_line(self.headers)
                },
            }),
    {
        if !is_valid_station_id(station_id) {
            return Err(RadikoError::Validation(ValidationFault::BadStationId));
        }
        if duration_minutes <= 0 {
            return Err(RadikoError::Validation(ValidationFault::NonPositiveDuration));
        }
        let end = match add_minutes_clock(start, duration_minutes) {
            Some(e) => e,
            None => {
                return Err(RadikoError::Validation(ValidationFault::BadStartTime));
            },
        };
        if end.year > 9999 {
            return Err(RadikoError::Validation(ValidationFault::BadStartTime));
        }
        let ft = format_datetime(start);
        let to = format_datetime(&end);
        let mut url = String::from_str("https://radiko.jp/v2/api/ts/playlist.m3u8?station_id=");
        url.append(station_id);
        url.append("&l=15&ft=");
        url.append(ft.as_str());
        url.append("&to=");
        url.append(to.as_str());
        let token = match &self.headers.auth_token {
            Some(t) => t,
            None => vstd::pervasive::unreached(),
        };
        let mut line = String::from_str("X-RADIKO-AUTHTOKEN: ");
        line.append(token.as_str());
        proof {
            assert(spec_tuple_ldt((end.year, end.month, end.day, end.hour, end.minute, end.second))
                == end);
            assert(url@ =~= spec_playlist_url(
                station_id@,
                spec_format14(*start),
                spec_format14(end),
            ));
            assert(line@ =~= spec_auth_header_line(self.headers));
        }
        Ok((url, line))
    }
}

/// The capture output file name for a station and a timestamp (the
/// launch time, which the caller reads from its clock).
pub fn output_file_name(station_id: &str, now: &LocalDateTime) -> (r: String)
    requires
        now.wf(),
    ensures
        r@ == spec_output_name(station_id@, spec_format14(*now)),
{
    let mut name = String::from_str(station_id);
    name.append("_");
    let ts = format_datetime(now);
    name.append(ts.as_str());
    name.append(".aac");
    proof {
        assert(name@ =~= spec_output_name(station_id@, spec_format14(*now)));
    }
    name
}

/// Judges the capture sink's exit code: zero is success, anything else
/// a sink failure surfaced with the raw code.
pub fn check_capture_status(code: i32) -> (r: Result<(), RadikoError>)
    ensures
        r is Ok <==> code == 0,
        r matches Err(e) ==> e == (RadikoError::Sink { code }),
{
    if code == 0 {
        Ok(())
    } else {
        Err(RadikoError::Sink { code })
    }
}

} // verus!
