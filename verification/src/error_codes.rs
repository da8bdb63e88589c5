//! The error codes with which the observed process ends a session.

use vstd::prelude::*;

verus! {

#[allow(non_camel_case_types)]
#[derive(Debug, Clone, Copy, PartialEq, Eq, Structural)]
pub enum ClientErrorCode {
    EC_FAILED_PROTOCOL_WITH_GAME,
    EC_INVALID_GAME_DATA,
    EC_PATCH,
    EC_DISCONNECT_BEGIN,
    EC_DISCONNECT_END,
    EC_TERMINATE_BEGIN,
    EC_CONNECT_TO_LOGIN_FAILED,
    EC_NOT_ENOUGH_MEMORY,
    EC_NO_DATA_PACKAGE,
    EC_INVALID_GAME_DATA_VERSION,
    EC_WEB_LOGIN_NEEDED,
    EC_AUTH_SETLOCALE_FAILED,
    EC_AUTH_COINIT_FAILED,
    EC_TERMINATE_END,
    EC_CONNECT_TO_GAME_FAILED,
    EC_CONNECTION_FROM_GAME_CLOSED,
    EC_FORCE_DISCONNECT,
    EC_DISCONNECT_BY_MALICIOUS_PROCESS,
    EC_CONNECTION_FROM_LOGIN_CLOSED,
    EC_INVALID_CLIENT_VERSION,
    EC_FAILED_CRITICAL_PROTOCOL_WITH_GAME,
    EC_CLIENTCRC_FAILED,
    EC_DOWNLOAD_FULL_CLIENT,
}

impl ClientErrorCode {
    /// The number that stands for the error on the wire.
    pub open spec fn spec_code(self) -> u32 {
        match self {
            ClientErrorCode::EC_FAILED_PROTOCOL_WITH_GAME => 553648131,
            ClientErrorCode::EC_INVALID_GAME_DATA => 570425350,
            ClientErrorCode::EC_PATCH => 536870912,
            ClientErrorCode::EC_DISCONNECT_BEGIN => 553648128,
            ClientErrorCode::EC_DISCONNECT_END => 553648134,
            ClientErrorCode::EC_TERMINATE_BEGIN => 570425344,
            ClientErrorCode::EC_CONNECT_TO_LOGIN_FAILED => 570425345,
            ClientErrorCode::EC_NOT_ENOUGH_MEMORY => 570425347,
            ClientErrorCode::EC_NO_DATA_PACKAGE => 570425348,
            ClientErrorCode::EC_INVALID_GAME_DATA_VERSION => 570425349,
            ClientErrorCode::EC_WEB_LOGIN_NEEDED => 570425353,
            ClientErrorCode::EC_AUTH_SETLOCALE_FAILED => 570425356,
            ClientErrorCode::EC_AUTH_COINIT_FAILED => 570425357,
            ClientErrorCode::EC_TERMINATE_END => 570425358,
            ClientErrorCode::EC_CONNECT_TO_GAME_FAILED => 553648129,
            ClientErrorCode::EC_CONNECTION_FROM_GAME_CLOSED => 553648130,
            ClientErrorCode::EC_FORCE_DISCONNECT => 553648132,
            ClientErrorCode::EC_DISCONNECT_BY_MALICIOUS_PROCESS => 553648133,
            ClientErrorCode::EC_CONNECTION_FROM_LOGIN_CLOSED => 570425346,
            ClientErrorCode::EC_INVALID_CLIENT_VERSION => 570425351,
            ClientErrorCode::EC_FAILED_CRITICAL_PROTOCOL_WITH_GAME => 570425352,
            ClientErrorCode::EC_CLIENTCRC_FAILED => 570425354,
            ClientErrorCode::EC_DOWNLOAD_FULL_CLIENT => 570425355,
        }
    }

    /// The error that a number stands for, if it stands for one.
    pub open spec fn spec_from_code(code: u32) -> Option<ClientErrorCode> {
        if code == 553648131 {
            Some(ClientErrorCode::EC_FAILED_PROTOCOL_WITH_GAME)
        } else if code == 570425350 {
            Some(ClientErrorCode::EC_INVALID_GAME_DATA)
        } else if code == 536870912 {
            Some(ClientErrorCode::EC_PATCH)
        } else if code == 553648128 {
            Some(ClientErrorCode::EC_DISCONNECT_BEGIN)
        } else if code == 553648134 {
            Some(ClientErrorCode::EC_DISCONNECT_END)
        } else if code == 570425344 {
            Some(ClientErrorCode::EC_TERMINATE_BEGIN)
        } else if code == 570425345 {
            Some(ClientErrorCode::EC_CONNECT_TO_LOGIN_FAILED)
        } else if code == 570425347 {
            Some(ClientErrorCode::EC_NOT_ENOUGH_MEMORY)
        } else if code == 570425348 {
            Some(ClientErrorCode::EC_NO_DATA_PACKAGE)
        } else if code == 570425349 {
            Some(ClientErrorCode::EC_INVALID_GAME_DATA_VERSION)
        } else if code == 570425353 {
            Some(ClientErrorCode::EC_WEB_LOGIN_NEEDED)
        } else if code == 570425356 {
            Some(ClientErrorCode::EC_AUTH_SETLOCALE_FAILED)
        } else if code == 570425357 {
            Some(ClientErrorCode::EC_AUTH_COINIT_FAILED)
        } else if code == 570425358 {
            Some(ClientErrorCode::EC_TERMINATE_END)
        } else if code == 553648129 {
            Some(ClientErrorCode::EC_CONNECT_TO_GAME_FAILED)
        } else if code == 553648130 {
            Some(ClientErrorCode::EC_CONNECTION_FROM_GAME_CLOSED)
        } else if code == 553648132 {
            Some(ClientErrorCode::EC_FORCE_DISCONNECT)
        } else if code == 553648133 {
            Some(ClientErrorCode::EC_DISCONNECT_BY_MALICIOUS_PROCESS)
        } else if code == 570425346 {
            Some(ClientErrorCode::EC_CONNECTION_FROM_LOGIN_CLOSED)
        } else if code == 570425351 {
            Some(ClientErrorCode::EC_INVALID_CLIENT_VERSION)
        } else if code == 570425352 {
            Some(ClientErrorCode::EC_FAILED_CRITICAL_PROTOCOL_WITH_GAME)
        } else if code == 570425354 {
            Some(ClientErrorCode::EC_CLIENTCRC_FAILED)
        } else if code == 570425355 {
            Some(ClientErrorCode::EC_DOWNLOAD_FULL_CLIENT)
        } else {
            None
        }
    }

    /// The number that stands for the error on the wire.
    pub fn code(self) -> (code: u32)
        ensures
            code == self.spec_code(),
    {
        match self {
            ClientErrorCode::EC_FAILED_PROTOCOL_WITH_GAME => 553648131,
            ClientErrorCode::EC_INVALID_GAME_DATA => 570425350,
            ClientErrorCode::EC_PATCH => 536870912,
            ClientErrorCode::EC_DISCONNECT_BEGIN => 553648128,
            ClientErrorCode::EC_DISCONNECT_END => 553648134,
            ClientErrorCode::EC_TERMINATE_BEGIN => 570425344,
            ClientErrorCode::EC_CONNECT_TO_LOGIN_FAILED => 570425345,
            ClientErrorCode::EC_NOT_ENOUGH_MEMORY => 570425347,
            ClientErrorCode::EC_NO_DATA_PACKAGE => 570425348,
            ClientErrorCode::EC_INVALID_GAME_DATA_VERSION => 570425349,
            ClientErrorCode::EC_WEB_LOGIN_NEEDED => 570425353,
            ClientErrorCode::EC_AUTH_SETLOCALE_FAILED => 570425356,
            ClientErrorCode::EC_AUTH_COINIT_FAILED => 570425357,
            ClientErrorCode::EC_TERMINATE_END => 570425358,
            ClientErrorCode::EC_CONNECT_TO_GAME_FAILED => 553648129,
            ClientErrorCode::EC_CONNECTION_FROM_GAME_CLOSED => 553648130,
            ClientErrorCode::EC_FORCE_DISCONNECT => 553648132,
            ClientErrorCode::EC_DISCONNECT_BY_MALICIOUS_PROCESS => 553648133,
            ClientErrorCode::EC_CONNECTION_FROM_LOGIN_CLOSED => 570425346,
            ClientErrorCode::EC_INVALID_CLIENT_VERSION => 570425351,
            ClientErrorCode::EC_FAILED_CRITICAL_PROTOCOL_WITH_GAME => 570425352,
            ClientErrorCode::EC_CLIENTCRC_FAILED => 570425354,
            ClientErrorCode::EC_DOWNLOAD_FULL_CLIENT => 570425355,
        }
    }

    /// The error that a number stands for, if it stands for one.
    pub fn from_code(code: u32) -> (error: Option<ClientErrorCode>)
        ensures
            error == Self::spec_from_code(code),
    {
        match code {
            553648131 => Some(ClientErrorCode::EC_FAILED_PROTOCOL_WITH_GAME),
            570425350 => Some(ClientErrorCode::EC_INVALID_GAME_DATA),
            536870912 => Some(ClientErrorCode::EC_PATCH),
            553648128 => Some(ClientErrorCode::EC_DISCONNECT_BEGIN),
            553648134 => Some(ClientErrorCode::EC_DISCONNECT_END),
            570425344 => Some(ClientErrorCode::EC_TERMINATE_BEGIN),
            570425345 => Some(ClientErrorCode::EC_CONNECT_TO_LOGIN_FAILED),
            570425347 => Some(ClientErrorCode::EC_NOT_ENOUGH_MEMORY),
            570425348 => Some(ClientErrorCode::EC_NO_DATA_PACKAGE),
            570425349 => Some(ClientErrorCode::EC_INVALID_GAME_DATA_VERSION),
            570425353 => Some(ClientErrorCode::EC_WEB_LOGIN_NEEDED),
            570425356 => Some(ClientErrorCode::EC_AUTH_SETLOCALE_FAILED),
            570425357 => Some(ClientErrorCode::EC_AUTH_COINIT_FAILED),
            570425358 => Some(ClientErrorCode::EC_TERMINATE_END),
            553648129 => Some(ClientErrorCode::EC_CONNECT_TO_GAME_FAILED),
            553648130 => Some(ClientErrorCode::EC_CONNECTION_FROM_GAME_CLOSED),
            553648132 => Some(ClientErrorCode::EC_FORCE_DISCONNECT),
            553648133 => Some(ClientErrorCode::EC_DISCONNECT_BY_MALICIOUS_PROCESS),
            570425346 => Some(ClientErrorCode::EC_CONNECTION_FROM_LOGIN_CLOSED),
            570425351 => Some(ClientErrorCode::EC_INVALID_CLIENT_VERSION),
            570425352 => Some(ClientErrorCode::EC_FAILED_CRITICAL_PROTOCOL_WITH_GAME),
            570425354 => Some(ClientErrorCode::EC_CLIENTCRC_FAILED),
            570425355 => Some(ClientErrorCode::EC_DOWNLOAD_FULL_CLIENT),
            _ => None,
        }
    }

    /// Every error is found again from its number, and a number gives only the
    /// error that it stands for.
    pub proof fn lemma_code_round_trip(self, code: u32)
        ensures
            Self::spec_from_code(self.spec_code()) == Some(self),
            Self::spec_from_code(code) == Some(self) ==> code == self.spec_code(),
    {
    }
}

} // verus!
