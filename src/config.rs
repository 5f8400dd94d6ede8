use vstd::prelude::*;
use vstd::string::StringExecFns;

verus! {

/// Settings the relay is started with.
pub struct Config {
    pub aws_region: String,
    pub api_id: String,
    pub table_name: String,
}

/// The address of the gateway's management endpoint for an API in a region.
pub open spec fn endpoint_url_of(api_id: Seq<char>, region: Seq<char>) -> Seq<char> {
    "https://"@ + api_id + ".execute-api."@ + region + ".amazonaws.com/default"@
}

impl Config {
    pub fn new(aws_region: String, api_id: String, table_name: String) -> (r: Config)
        ensures
            r.aws_region == aws_region,
            r.api_id == api_id,
            r.table_name == table_name,
    {
        Config { aws_region, api_id, table_name }
    }

    /// The management endpoint through which messages are pushed to clients.
    pub fn endpoint_url(&self) -> (r: String)
        ensures
            r@ == endpoint_url_of(self.api_id@, self.aws_region@),
    {
        let r = String::from_str("https://");
        let r = r.concat(self.api_id.as_str());
        let r = r.concat(".execute-api.");
        let r = r.concat(self.aws_region.as_str());
        r.concat(".amazonaws.com/default")
    }
}

} // verus!
