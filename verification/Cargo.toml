[package]
name = "proof_of_sql_benchlib"
version = "0.1.0"
edition = "2021"
publish = false

[dependencies]
ark-bn254 = "*"
ark-serialize = "*"
bumpalo = "*"
bytemuck = "*"
halo2curves = "*"
rand = "0.8"
sqlparser = "*"
