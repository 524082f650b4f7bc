# rusoto

The service crate generator and the instance-metadata credential provider of
the AWS SDK for Rust, written in Verus.

- `src/` is the verified library: the contents and paths of generated
  service crates, the choice of a service's protocol date, the credentials
  types, and the credential fetch from the instance metadata service as a
  step function from each response to the next request or outcome.
- `app/` holds the file and network work: the generator's `main`, which
  reads the botocore data directory and writes the crates, and the
  `ProvideAwsCredentials` implementation that sends the metadata requests.
- `tests/` runs the library on concrete values.
