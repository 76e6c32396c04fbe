//! The errors of the library.
use vstd::prelude::*;

verus! {

/// An error of a database operation; each variant carries a message.
#[derive(Debug)]
pub enum DatabaseError {
    CommonError(String),
    NotFoundError(String),
    UnKnowError(String),
    ConvertError(String),
    AccessError(String),
    InstanceAlreadyExistsError(String),
    ConfigNotFoundError(String),
    PoolCreateError(String),
    ConnectCanNotGetError(String),
    RowConvertError(String),
    NotSupportedError(String),
    ExecuteError(String),
}

/// The human-readable text of an error.
pub open spec fn error_text(e: DatabaseError) -> Seq<char> {
    match e {
        DatabaseError::CommonError(_) => "Business Error"@,
        DatabaseError::NotFoundError(m) => "Not Found Error : "@ + m@,
        DatabaseError::UnKnowError(m) => "Unknow Error : "@ + m@,
        DatabaseError::ConvertError(m) => "Convert Error : "@ + m@,
        DatabaseError::AccessError(m) => "Access Error: "@ + m@,
        DatabaseError::InstanceAlreadyExistsError(m) => "Instance Already Exists: "@ + m@,
        DatabaseError::ConfigNotFoundError(m) => "Config Not Found: "@ + m@,
        DatabaseError::PoolCreateError(m) => "Pool Create Error: "@ + m@,
        DatabaseError::ConnectCanNotGetError(m) => "Connect Can Not Get Error: "@ + m@,
        DatabaseError::RowConvertError(m) => "Row Convert Error: "@ + m@,
        DatabaseError::NotSupportedError(m) => "Not Supported Error: "@ + m@,
        DatabaseError::ExecuteError(m) => "Execute Error: "@ + m@,
    }
}

impl DatabaseError {
    /// The human-readable text of this error.
    pub fn to_string(&self) -> (r: String)
        ensures
            r@ == error_text(*self),
    {
        let (prefix, msg): (&str, &String) = match self {
            DatabaseError::CommonError(_) => {
                return String::from_str("Business Error");
            },
            DatabaseError::NotFoundError(m) => ("Not Found Error : ", m),
            DatabaseError::UnKnowError(m) => ("Unknow Error : ", m),
            DatabaseError::ConvertError(m) => ("Convert Error : ", m),
            DatabaseError::AccessError(m) => ("Access Error: ", m),
            DatabaseError::InstanceAlreadyExistsError(m) => ("Instance Already Exists: ", m),
            DatabaseError::ConfigNotFoundError(m) => ("Config Not Found: ", m),
            DatabaseError::PoolCreateError(m) => ("Pool Create Error: ", m),
            DatabaseError::ConnectCanNotGetError(m) => ("Connect Can Not Get Error: ", m),
            DatabaseError::RowConvertError(m) => ("Row Convert Error: ", m),
            DatabaseError::NotSupportedError(m) => ("Not Supported Error: ", m),
            DatabaseError::ExecuteError(m) => ("Execute Error: ", m),
        };
        let mut r = String::from_str(prefix);
        r.append(msg.as_str());
        r
    }
}

} // verus!
