pub mod find_addr;
pub mod find_by_id;
pub mod find_by_number;
pub mod find_content;
pub mod find_cur_num;
pub mod wallet;
