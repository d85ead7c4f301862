//! Request and response shapes of the broker's REST interface, and the
//! connection settings of an account.
use vstd::prelude::*;
use crate::realtime::Direction;

verus! {

#[derive(Clone, Copy, Debug, PartialEq, Eq, Structural)]
pub enum AccountType {
    CFD,
    PHYSICAL,
    SPREADSHEET,
}

#[derive(Clone, Copy, Debug, PartialEq, Eq, Structural)]
pub enum ReroutingEnvironment {
    DEMO,
    LIVE,
    TEST,
    UAT,
}

#[derive(Clone, Copy, Debug, PartialEq, Eq, Structural)]
pub enum Unit {
    PERCENTAGE,
    POINTS,
}

#[derive(Clone, Copy, Debug, PartialEq, Eq, Structural)]
pub enum CurrencyCode {
    EUR,
    USD,
    SEK,
}

#[derive(Clone, Copy, Debug, PartialEq, Eq, Structural)]
pub enum WorkingOrderType {
    LIMIT,
    STOP,
}

#[derive(Clone, Copy, Debug, PartialEq, Eq, Structural)]
pub enum OrderType {
    LIMIT,
    MARKET,
    QUOTE,
}

#[derive(Clone, Debug)]
pub struct ApiResponse(pub String);

#[derive(Clone, Debug)]
pub struct AccessTokenResponse {
    pub access_token: String,
    pub expires_in: String,
    pub refresh_token: String,
    pub scope: String,
    pub token_type: String,
}

#[derive(Clone, Debug)]
pub struct CreateDeletePositionResponse {
    pub deal_reference: String,
}

#[derive(Clone, Debug)]
pub struct CreateSessionResponse {
    pub oauth_token: AccessTokenResponse,
    pub lightstreamer_endpoint: String,
}

#[derive(Clone, Debug)]
pub struct AccountDetails {
    pub account_id: String,
    pub account_name: String,
    pub account_type: AccountType,
    pub preferred: bool,
}

#[derive(Clone, Debug)]
pub struct CreateSessionRequest {
    pub identifier: String,
    pub password: String,
}

#[derive(Clone, Debug)]
pub struct CreateSessionRequestV2 {
    pub identifier: String,
    pub password: String,
    pub encrypted_password: bool,
}

#[derive(Clone, Debug)]
pub struct InstrumentDetails {
    pub name: String,
    pub value_of_one_pip: String,
    pub one_pip_means: String,
    pub contract_size: String,
}

#[derive(Clone, Debug)]
pub struct RefreshTokenRequest {
    pub refresh_token: String,
}

#[derive(Clone, Copy, Debug, PartialEq, Eq, Structural)]
pub struct Allowance {
    pub allowance_expiry: usize,
    pub remaining_allowance: usize,
    pub total_allowance: usize,
}

/// A request to close a position at market.
#[derive(Clone, Debug)]
pub struct ClosePositionRequest {
    pub direction: Direction,
    pub epic: String,
    pub expiry: String,
    pub order_type: OrderType,
    pub size: u8,
}

impl ClosePositionRequest {
    /// Closes `size` of the DAX position at market, without expiry.
    pub fn new(direction: Direction, size: u8) -> (r: ClosePositionRequest)
        ensures
            r.direction == direction,
            r.size == size,
            r.order_type == OrderType::MARKET,
            r.epic@ == "IX.D.DAX.IFMM.IP"@,
            r.expiry@ == "-"@,
    {
        ClosePositionRequest {
            direction,
            order_type: OrderType::MARKET,
            epic: "IX.D.DAX.IFMM.IP".to_owned(),
            expiry: "-".to_owned(),
            size,
        }
    }
}

/// Credentials and endpoint of a broker account.
#[derive(Clone, Debug)]
pub struct ConnectionDetails {
    pub username: String,
    pub password: String,
    pub api_key: String,
    pub account: String,
    pub base_url: String,
}

/// Session tokens shared by the REST and stream clients.
#[derive(Clone, Debug)]
pub struct SessionState {
    pub xst: String,
    pub cst: String,
    pub lightstreamer_endpoint: String,
    pub account: String,
}

/// Marks a REST client before login.
pub struct NoSession;

/// Marks a REST client after login.
pub struct HasSession;

/// Account credentials.
#[derive(Clone, Debug)]
pub struct Config {
    pub username: String,
    pub password: String,
    pub account: String,
    pub api_key: String,
}

impl Config {
    pub fn new(username: String, password: String, account: String, api_key: String) -> (r: Config)
        ensures
            r == (Config { username, password, account, api_key }),
    {
        Config { username, password, account, api_key }
    }
}

/// Account credentials of the IG broker.
#[derive(Clone, Debug)]
pub struct IGConfig {
    pub usr: String,
    pub pwd: String,
    pub api_key: String,
    pub account: String,
}

impl IGConfig {
    pub fn new(usr: String, pwd: String, api_key: String, account: String) -> (r: IGConfig)
        ensures
            r == (IGConfig { usr, pwd, api_key, account }),
    {
        IGConfig { usr, pwd, api_key, account }
    }
}

/// Account information from the IG broker.
#[derive(Clone, Debug)]
pub struct IGAccountProvider {
    pub config: IGConfig,
}

impl IGAccountProvider {
    pub fn new(config: IGConfig) -> (r: IGAccountProvider)
        ensures
            r.config == config,
    {
        IGAccountProvider { config }
    }
}

} // verus!
