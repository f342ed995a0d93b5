//! The runtime naming model: which runtimes a process may host, and the
//! thread name each of them labels its workers with. The runtimes
//! themselves (thread pools, cancellation) live outside the library.

use vstd::prelude::*;
use vstd::string::*;

verus! {

/// The role of a runtime a process may host.
#[derive(Debug, Clone, PartialEq, Eq, Hash)]
pub enum RuntimeType {
    Main,
    CommonNetwork,
    HttpApi,
    WebSocket,
    RpcService,
    MessageQueue,
    CommonIO,
    FileProcessing,
    Database,
    CacheService,
    CommonCompute,
    DataProcessing,
    ImageProcessing,
    MachineLearning,
    Custom(String),
}

impl RuntimeType {
    pub open spec fn spec_thread_name(&self) -> Seq<char> {
        match self {
            RuntimeType::Main => "main"@,
            RuntimeType::CommonNetwork => "common-network"@,
            RuntimeType::HttpApi => "http-api"@,
            RuntimeType::WebSocket => "websocket"@,
            RuntimeType::RpcService => "rpc-service"@,
            RuntimeType::MessageQueue => "message-queue"@,
            RuntimeType::CommonIO => "common-io"@,
            RuntimeType::FileProcessing => "file-processing"@,
            RuntimeType::Database => "database"@,
            RuntimeType::CacheService => "cache-service"@,
            RuntimeType::CommonCompute => "common-compute"@,
            RuntimeType::DataProcessing => "data-processing"@,
            RuntimeType::ImageProcessing => "image-processing"@,
            RuntimeType::MachineLearning => "machine-learning"@,
            RuntimeType::Custom(s) => "custom-"@ + s@,
        }
    }

    /// The thread name the runtime labels its workers with.
    pub fn as_thread_name(&self) -> (r: String)
        ensures
            r@ == self.spec_thread_name(),
    {
        match self {
            RuntimeType::Main => "main".to_owned(),
            RuntimeType::CommonNetwork => "common-network".to_owned(),
            RuntimeType::HttpApi => "http-api".to_owned(),
            RuntimeType::WebSocket => "websocket".to_owned(),
            RuntimeType::RpcService => "rpc-service".to_owned(),
            RuntimeType::MessageQueue => "message-queue".to_owned(),
            RuntimeType::CommonIO => "common-io".to_owned(),
            RuntimeType::FileProcessing => "file-processing".to_owned(),
            RuntimeType::Database => "database".to_owned(),
            RuntimeType::CacheService => "cache-service".to_owned(),
            RuntimeType::CommonCompute => "common-compute".to_owned(),
            RuntimeType::DataProcessing => "data-processing".to_owned(),
            RuntimeType::ImageProcessing => "image-processing".to_owned(),
            RuntimeType::MachineLearning => "machine-learning".to_owned(),
            RuntimeType::Custom(s) => {
                let mut out = "custom-".to_owned();
                out.append(s.as_str());
                out
            },
        }
    }
}

} // verus!
