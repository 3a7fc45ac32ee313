pub mod donation_record;
