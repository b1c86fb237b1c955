//! The factory that a registry of schemas asks for a parser.

use vstd::prelude::*;
use crate::parser::{ImageMessageParser, ImageRow};

verus! {

/// `mcap::Channel`: the description of a channel in its container, opaque here.
#[verifier::external_type_specification]
#[verifier::external_body]
pub struct ExChannel<'a>(mcap::Channel<'a>);

/// Makes parsers for channels of uncompressed image messages.
#[derive(Clone, Copy, Debug, Default)]
pub struct ImageSchemaPlugin;

impl ImageSchemaPlugin {
    /// The name of the schema that this plugin reads. A registry routes the
    /// channels that declare this schema to the plugin.
    pub fn name(&self) -> (name: String)
        ensures
            name@ == "sensor_msgs/msg/Image"@,
    {
        "sensor_msgs/msg/Image".to_owned()
    }

    /// A fresh parser for one channel. The channel is not looked into, and
    /// `num_rows` only says how much room to set aside: more or fewer rows
    /// may come.
    pub fn create_message_parser(&self, _channel: &mcap::Channel<'_>, num_rows: usize) -> (parser:
        ImageMessageParser)
        ensures
            parser.wf(),
            parser.rows() == Seq::<ImageRow>::empty(),
    {
        ImageMessageParser::new(num_rows)
    }
}

} // verus!
