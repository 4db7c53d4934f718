# backend

The infrastructure layer of an EC extension backend that sits in front of the Shopify
Admin API, Amazon Cognito and a permission database, written in Verus.

- `src/` is the verified library: the domain types and their validation, the GraphQL
  query texts and the conversion of the API's nodes into domain values and back, the
  pagination of list queries, the grouping of variants into products, role-based
  authorization, the steps of Cognito token verification, the settings, and the
  transaction decisions of the request middlewares.
- `app/` is the code around it: the HTTP and GraphQL clients, the Cognito and Secrets
  Manager clients, the actix-web middlewares and routes, and the serde forms of the
  payloads.
- `tests/` runs the library on concrete values.
