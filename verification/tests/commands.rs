use protocol::command::{BlockHeaderResponse, Command, GetBlock, GetBlockHeader, HeaderHash};
use protocol::connection::Connection;
use protocol::frame::Outgoing;
use protocol::light_id::LightId;
use protocol::node_id::NodeId;

fn token() -> NodeId {
    NodeId::new(vec![0x53, 0, 0, 0, 0, 0, 0, 0, 1])
}

fn hash(tag: u8) -> HeaderHash {
    HeaderHash::new(vec![tag; 32])
}

fn open_header_command(c: &mut Connection, cmd: &GetBlockHeader) -> LightId {
    <GetBlockHeader as Command<BlockHeaderResponse<String>>>::open(cmd, c, token())
}

#[test]
fn header_hash_is_its_bytes() {
    let h = hash(3);
    assert_eq!(h.as_bytes(), &vec![3u8; 32]);
    assert_eq!(h.clone(), h);
}

#[test]
fn get_block_header_names_its_anchor() {
    assert_eq!(GetBlockHeader::first().get_anchor(), &None);
    assert_eq!(GetBlockHeader::some(hash(1)).get_anchor(), &Some(hash(1)));
}

#[test]
fn get_block_names_its_bounds() {
    let range = GetBlock::from(hash(1), hash(2));
    assert_eq!(range.get_from(), &hash(1));
    assert_eq!(range.get_to(), &hash(2));
    let one = GetBlock::only(hash(5));
    assert_eq!(one.get_from(), &hash(5));
    assert_eq!(one.get_to(), &hash(5));
}

#[test]
fn open_takes_the_next_id_and_opens_the_channel() {
    let mut c = Connection::new();
    let cmd = GetBlock::only(hash(1));
    let id = cmd.open(&mut c, token());
    assert_eq!(id, LightId(0x401));
    assert!(c.has_client(id));
    assert_eq!(
        c.take_outgoing(),
        vec![Outgoing::CreateLight(0x401), Outgoing::Data(0x401, vec![0x53, 0, 0, 0, 0, 0, 0, 0, 1])]
    );
    let next = cmd.open(&mut c, token());
    assert_eq!(next, LightId(0x402));
    assert_eq!(c.client_ids(), vec![LightId(0x401), LightId(0x402)]);
}

#[test]
fn fetch_header_yields_the_first_header() {
    let mut c = Connection::new();
    let cmd = GetBlockHeader::first();
    let id = open_header_command(&mut c, &cmd);
    let response = BlockHeaderResponse::Headers(vec!["tip".to_string(), "parent".to_string()]);
    assert_eq!(cmd.execute(&mut c, id, response), Ok("tip".to_string()));
    assert!(!c.has_client(id));
}

#[test]
fn fetch_header_of_one_header() {
    let cmd = GetBlockHeader::some(hash(9));
    assert_eq!(cmd.cmd(BlockHeaderResponse::Headers(vec![17u64])), Ok(17));
}

#[test]
fn fetch_header_empty_is_an_error_and_closes_the_channel() {
    let mut c = Connection::new();
    let cmd = GetBlockHeader::first();
    let id = open_header_command(&mut c, &cmd);
    assert!(c.has_client(id));
    let response: BlockHeaderResponse<String> = BlockHeaderResponse::Headers(Vec::new());
    assert_eq!(cmd.execute(&mut c, id, response), Err("No first main block header"));
    assert!(!c.has_client(id));
    assert_eq!(c.client_ids(), Vec::<LightId>::new());
}

#[test]
fn fetch_header_other_answer_is_an_error_and_closes_the_channel() {
    let mut c = Connection::new();
    let cmd = GetBlockHeader::some(hash(2));
    let id = open_header_command(&mut c, &cmd);
    let response: BlockHeaderResponse<String> = BlockHeaderResponse::Other;
    assert_eq!(cmd.cmd(BlockHeaderResponse::<String>::Other), Err("No first main block header"));
    assert_eq!(cmd.execute(&mut c, id, response), Err("No first main block header"));
    assert!(!c.has_client(id));
}

#[test]
fn fetch_blocks_returns_the_answer_as_it_came() {
    let mut c = Connection::new();
    let cmd = GetBlock::from(hash(1), hash(2));
    let id = cmd.open(&mut c, token());
    assert_eq!(cmd.cmd(vec![1, 2, 3]), Ok(vec![1, 2, 3]));
    assert_eq!(cmd.execute(&mut c, id, vec![0x82, 0, 0xff]), Ok(vec![0x82, 0, 0xff]));
    assert!(!c.has_client(id));
    assert_eq!(cmd.cmd(Vec::new()), Ok(Vec::new()));
}

#[test]
fn commands_run_one_after_another_on_fresh_channels() {
    let mut c = Connection::new();
    let cmd = GetBlock::only(hash(1));
    let mut seen = Vec::new();
    for round in 0..5u8 {
        let id = cmd.open(&mut c, token());
        assert!(!seen.contains(&id));
        seen.push(id);
        assert_eq!(cmd.execute(&mut c, id, vec![round]), Ok(vec![round]));
        assert_eq!(c.client_ids(), Vec::<LightId>::new());
    }
    assert_eq!(seen, vec![LightId(0x401), LightId(0x402), LightId(0x403), LightId(0x404), LightId(0x405)]);
}

#[test]
fn execute_leaves_other_channels_open() {
    let mut c = Connection::new();
    let cmd = GetBlock::only(hash(1));
    let first = cmd.open(&mut c, token());
    let second = cmd.open(&mut c, token());
    assert_eq!(cmd.execute(&mut c, second, vec![1]), Ok(vec![1]));
    assert_eq!(c.client_ids(), vec![first]);
}
