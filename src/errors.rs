//! The errors that the client reports, each with the text it is shown by.
use vstd::prelude::*;

verus! {

/// Why a connection could not be made.
#[derive(Clone, Copy, Debug, PartialEq, Eq, Structural)]
pub enum AmqpFailure {
    AlreadyActive,
    FailedSasl,
}

impl AmqpFailure {
    pub open spec fn text(&self) -> Seq<char> {
        match self {
            AmqpFailure::AlreadyActive => "AlreadyActive"@,
            AmqpFailure::FailedSasl => "FailedSasl"@,
        }
    }

    pub fn to_string(&self) -> (r: String)
        ensures
            r@ == self.text(),
    {
        match self {
            AmqpFailure::AlreadyActive => String::from_str("AlreadyActive"),
            AmqpFailure::FailedSasl => String::from_str("FailedSasl"),
        }
    }
}

/// What ended a session, or why recovery or a health check could not go on.
#[derive(Clone, Copy, Debug, PartialEq, Eq, Structural)]
pub enum ClientRedirectRecovery {
    GeneralFailure,
    NoThreadAvailable,
    Timeout,
    ThreadJoinError,
    ServiceDisconnect,
    AMQPCodecFailure,
    AMQPIOFailure,
    AMQPProtocolFailure,
    Disconnected,
}

impl ClientRedirectRecovery {
    pub open spec fn text(&self) -> Seq<char> {
        match self {
            ClientRedirectRecovery::GeneralFailure => "GeneralFailure"@,
            ClientRedirectRecovery::NoThreadAvailable => "NoThreadAvailable"@,
            ClientRedirectRecovery::Timeout => "Timeout"@,
            ClientRedirectRecovery::ThreadJoinError => "ThreadJoinError"@,
            ClientRedirectRecovery::ServiceDisconnect => "ServiceDisconnect"@,
            ClientRedirectRecovery::AMQPCodecFailure => "AMQPCodedFailure"@,
            ClientRedirectRecovery::AMQPIOFailure => "AMQPIOFailure"@,
            ClientRedirectRecovery::AMQPProtocolFailure => "AMQPProtocolFailure"@,
            ClientRedirectRecovery::Disconnected => "Disconnected"@,
        }
    }

    pub fn to_string(&self) -> (r: String)
        ensures
            r@ == self.text(),
    {
        match self {
            ClientRedirectRecovery::GeneralFailure => String::from_str("GeneralFailure"),
            ClientRedirectRecovery::NoThreadAvailable => String::from_str("NoThreadAvailable"),
            ClientRedirectRecovery::Timeout => String::from_str("Timeout"),
            ClientRedirectRecovery::ThreadJoinError => String::from_str("ThreadJoinError"),
            ClientRedirectRecovery::ServiceDisconnect => String::from_str("ServiceDisconnect"),
            ClientRedirectRecovery::AMQPCodecFailure => String::from_str("AMQPCodedFailure"),
            ClientRedirectRecovery::AMQPIOFailure => String::from_str("AMQPIOFailure"),
            ClientRedirectRecovery::AMQPProtocolFailure => String::from_str("AMQPProtocolFailure"),
            ClientRedirectRecovery::Disconnected => String::from_str("Disconnected"),
        }
    }
}

/// Why a link could not be attached, or a message sent or received.
#[derive(Clone, Copy, Debug, PartialEq, Eq, Structural)]
pub enum TransferExceptions {
    NoSession,
    LinkDetachedOrDoesNotExist,
    MessageTimeOut,
    MessageAmqpProtocolError,
    LinkAlreadyActive,
    GeneralTimeout,
    LinkAmqpProtocolError,
    LinkCreateFailure,
    NoMessage,
}

impl TransferExceptions {
    pub open spec fn text(&self) -> Seq<char> {
        match self {
            TransferExceptions::NoSession => "NoSession"@,
            TransferExceptions::LinkDetachedOrDoesNotExist => "Link detached or non existent."@,
            TransferExceptions::MessageTimeOut => "Message sent timed out."@,
            TransferExceptions::MessageAmqpProtocolError => "Message encountered AMQP Exception."@,
            TransferExceptions::LinkAlreadyActive => "Link is already active"@,
            TransferExceptions::GeneralTimeout => "General timeout on operation."@,
            TransferExceptions::LinkAmqpProtocolError => "An AMQP error occurred on an link operation."@,
            TransferExceptions::LinkCreateFailure => "Failed to create the link."@,
            TransferExceptions::NoMessage => "No message"@,
        }
    }

    pub fn to_string(&self) -> (r: String)
        ensures
            r@ == self.text(),
    {
        match self {
            TransferExceptions::NoSession => String::from_str("NoSession"),
            TransferExceptions::LinkDetachedOrDoesNotExist => String::from_str(
                "Link detached or non existent.",
            ),
            TransferExceptions::MessageTimeOut => String::from_str("Message sent timed out."),
            TransferExceptions::MessageAmqpProtocolError => String::from_str(
                "Message encountered AMQP Exception.",
            ),
            TransferExceptions::LinkAlreadyActive => String::from_str("Link is already active"),
            TransferExceptions::GeneralTimeout => String::from_str("General timeout on operation."),
            TransferExceptions::LinkAmqpProtocolError => String::from_str(
                "An AMQP error occurred on an link operation.",
            ),
            TransferExceptions::LinkCreateFailure => String::from_str("Failed to create the link."),
            TransferExceptions::NoMessage => String::from_str("No message"),
        }
    }
}

/// Why the trust material could not be loaded into a TLS configuration.
#[derive(Clone, Copy, Debug, PartialEq, Eq, Structural)]
pub enum TlsConfigFailure {
    CertAddToRootStoreFailure,
    NoValidCerts,
}

impl TlsConfigFailure {
    pub open spec fn text(&self) -> Seq<char> {
        match self {
            TlsConfigFailure::CertAddToRootStoreFailure => "Failed to add the cert to the root store."@,
            TlsConfigFailure::NoValidCerts => "The applied certificate is invalid."@,
        }
    }

    pub fn to_string(&self) -> (r: String)
        ensures
            r@ == self.text(),
    {
        match self {
            TlsConfigFailure::CertAddToRootStoreFailure => String::from_str(
                "Failed to add the cert to the root store.",
            ),
            TlsConfigFailure::NoValidCerts => String::from_str("The applied certificate is invalid."),
        }
    }
}

} // verus!
